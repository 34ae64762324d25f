//! The self-delimiting frame codec.
//!
//! A frame is a start sentinel, length-prefixed fields and an end
//! sentinel.  The minimal format frames a message code and an opaque
//! payload:
//!
//! `5A 5A | code_len (1) | code | payload_len (2, big endian) | payload |
//! A5 A5`
//!
//! The tagged format additionally carries a sender identifier and an
//! overall frame length right after the start sentinel, for multi-peer
//! disambiguation:
//!
//! `5A 5A | frame_len (2, big endian) | id_len (1) | id | code_len (1) |
//! code | payload_len (2, big endian) | payload | A5 A5`
//!
//! where `frame_len` counts every byte between the sentinels, itself
//! included.
//!
//! Decoding is resynchronizing and deliberately asymmetric: a wrong start
//! sentinel merely skips a byte and keeps scanning for the next frame,
//! while a wrong end sentinel (or an inconsistent length field) is fatal
//! and aborts the connection.  Payload bytes are not escaped; recovery
//! relies solely on re-finding a valid start sentinel.

use vstd::prelude::*;

verus! {

/// Both bytes of the start sentinel `5A 5A`.
pub const FRAME_START_BYTE: u8 = 0x5A;

/// Both bytes of the end sentinel `A5 A5`.
pub const FRAME_END_BYTE: u8 = 0xA5;

/// Longest message code a frame can carry (one length byte).
pub const MAX_CODE_LEN: usize = 255;

/// Longest payload a frame can carry (two length bytes).
pub const MAX_PAYLOAD_LEN: usize = 65535;

/// High byte of a 16-bit big-endian length field.
pub open spec fn len_hi(n: int) -> u8 {
    (n / 256) as u8
}

/// Low byte of a 16-bit big-endian length field.
pub open spec fn len_lo(n: int) -> u8 {
    (n % 256) as u8
}

/// The bytes of a minimal frame for `code` and `payload`.
pub open spec fn framed_bytes(code: Seq<u8>, payload: Seq<u8>) -> Seq<u8> {
    seq![FRAME_START_BYTE, FRAME_START_BYTE, code.len() as u8] + code + seq![
        len_hi(payload.len() as int),
        len_lo(payload.len() as int),
    ] + payload + seq![FRAME_END_BYTE, FRAME_END_BYTE]
}

/// One step of the minimal-format decoder, over executable values.
pub enum UnframeStep {
    /// The buffer holds no complete frame yet: at least `demand` bytes
    /// (from the scan position) are needed before deciding further.
    NeedMore { demand: usize },
    /// The scan position does not start a frame: drop one byte and keep
    /// scanning for the next start sentinel (recoverable by design).
    SkipByte,
    /// A whole frame was decoded; `used` bytes were consumed.
    Decoded { code: Vec<u8>, payload: Vec<u8>, used: usize },
    /// The end sentinel did not match: fatal by design, the connection
    /// must be torn down.
    Corrupt,
}

/// One step of the minimal-format decoder, over mathematical values.
pub enum UnframeModel {
    NeedMore { demand: int },
    SkipByte,
    Decoded { code: Seq<u8>, payload: Seq<u8>, used: int },
    Corrupt,
}

impl View for UnframeStep {
    type V = UnframeModel;

    open spec fn view(&self) -> UnframeModel {
        match self {
            UnframeStep::NeedMore { demand } => UnframeModel::NeedMore {
                demand: *demand as int,
            },
            UnframeStep::SkipByte => UnframeModel::SkipByte,
            UnframeStep::Decoded { code, payload, used } => UnframeModel::Decoded {
                code: code@,
                payload: payload@,
                used: *used as int,
            },
            UnframeStep::Corrupt => UnframeModel::Corrupt,
        }
    }
}

/// What the minimal-format decoder decides on the byte sequence `b`.
pub open spec fn unframe_model(b: Seq<u8>) -> UnframeModel {
    if b.len() >= 1 && b[0] != FRAME_START_BYTE {
        UnframeModel::SkipByte
    } else if b.len() >= 2 && b[1] != FRAME_START_BYTE {
        UnframeModel::SkipByte
    } else if b.len() < 3 {
        UnframeModel::NeedMore { demand: 3 }
    } else {
        let code_len = b[2] as int;
        let header = 5 + code_len;
        if b.len() < header {
            UnframeModel::NeedMore { demand: header }
        } else {
            let payload_len = b[3 + code_len] * 256 + b[4 + code_len];
            let total = header + payload_len + 2;
            if b.len() < total {
                UnframeModel::NeedMore { demand: total }
            } else if b[total - 2] != FRAME_END_BYTE || b[total - 1] != FRAME_END_BYTE {
                UnframeModel::Corrupt
            } else {
                UnframeModel::Decoded {
                    code: b.subrange(3, 3 + code_len),
                    payload: b.subrange(header, header + payload_len),
                    used: total,
                }
            }
        }
    }
}

/// Copies `buf[start..end]` into a fresh vector.
pub fn copy_range(buf: &Vec<u8>, start: usize, end: usize) -> (r: Vec<u8>)
    requires
        start <= end <= buf.len(),
    ensures
        r@ == buf@.subrange(start as int, end as int),
{
    let mut r: Vec<u8> = Vec::new();
    let mut i: usize = start;
    while i < end
        invariant
            start <= i <= end,
            r@ == buf@.subrange(start as int, i as int),
        decreases end - i,
    {
        r.push(buf[i]);
        i = i + 1;
        proof {
            assert(r@ =~= buf@.subrange(start as int, i as int));
        }
    }
    r
}

/// Builds a minimal frame around `code` and `payload`.  Encoding is
/// deterministic; the payload travels as opaque length-prefixed bytes.
pub fn frame_message(code: &Vec<u8>, payload: &Vec<u8>) -> (r: Vec<u8>)
    requires
        code@.len() <= MAX_CODE_LEN,
        payload@.len() <= MAX_PAYLOAD_LEN,
    ensures
        r@ == framed_bytes(code@, payload@),
{
    let mut r: Vec<u8> = Vec::new();
    r.push(FRAME_START_BYTE);
    r.push(FRAME_START_BYTE);
    r.push(code.len() as u8);
    r.extend_from_slice(code.as_slice());
    let payload_len = payload.len();
    r.push((payload_len / 256) as u8);
    r.push((payload_len % 256) as u8);
    r.extend_from_slice(payload.as_slice());
    r.push(FRAME_END_BYTE);
    r.push(FRAME_END_BYTE);
    proof {
        assert(r@ =~= framed_bytes(code@, payload@));
    }
    r
}

/// Decodes at most one minimal frame from `buf`, starting at position
/// `from`.  The caller keeps a growing buffer of received bytes and obeys
/// the returned step: fetch more bytes, skip one byte and rescan, consume
/// a decoded frame, or abort on corruption.
pub fn unframe_message(buf: &Vec<u8>, from: usize) -> (step: UnframeStep)
    requires
        from <= buf.len(),
    ensures
        step@ == unframe_model(buf@.skip(from as int)),
{
    let ghost b = buf@.skip(from as int);
    let avail = buf.len() - from;
    if avail >= 1 && buf[from] != FRAME_START_BYTE {
        UnframeStep::SkipByte
    } else if avail >= 2 && buf[from + 1] != FRAME_START_BYTE {
        UnframeStep::SkipByte
    } else if avail < 3 {
        UnframeStep::NeedMore { demand: 3 }
    } else {
        let code_len = buf[from + 2] as usize;
        let header = 5 + code_len;
        if avail < header {
            UnframeStep::NeedMore { demand: header }
        } else {
            let payload_len = (buf[from + 3 + code_len] as usize) * 256 + (buf[from + 4
                + code_len] as usize);
            let total = header + payload_len + 2;
            if avail < total {
                UnframeStep::NeedMore { demand: total }
            } else if buf[from + total - 2] != FRAME_END_BYTE || buf[from + total - 1]
                != FRAME_END_BYTE {
                UnframeStep::Corrupt
            } else {
                let code = copy_range(buf, from + 3, from + 3 + code_len);
                let payload = copy_range(buf, from + header, from + header + payload_len);
                proof {
                    assert(code@ =~= b.subrange(3, 3 + code_len as int));
                    assert(payload@ =~= b.subrange(
                        header as int,
                        header as int + payload_len as int,
                    ));
                }
                UnframeStep::Decoded { code, payload, used: total }
            }
        }
    }
}

/// Scans `buf` from position `from` for the next minimal frame: skips
/// byte by byte over anything that does not start with the start
/// sentinel, then decodes.  Returns how many bytes were skipped and the
/// first decisive step, which is never a skip.
pub fn unframe_scan(buf: &Vec<u8>, from: usize) -> (r: (usize, UnframeStep))
    requires
        from <= buf.len(),
    ensures
        from + r.0 <= buf.len(),
        !(r.1@ is SkipByte),
        r.1@ == unframe_model(buf@.skip(from + r.0)),
        forall|k: int|
            0 <= k < r.0 ==> #[trigger] unframe_model(buf@.skip(from + k)) is SkipByte,
{
    let mut skipped: usize = 0;
    loop
        invariant
            from + skipped <= buf.len(),
            forall|k: int|
                0 <= k < skipped ==> #[trigger] unframe_model(buf@.skip(from + k)) is SkipByte,
        decreases buf.len() - from - skipped,
    {
        let step = unframe_message(buf, from + skipped);
        match step {
            UnframeStep::SkipByte => {
                skipped = skipped + 1;
            },
            _ => {
                return (skipped, step);
            },
        }
    }
}

/// Law: the codec round-trips.  Decoding a buffer that starts with the
/// encoding of any valid `code` and `payload` yields exactly that code and
/// payload, whatever bytes follow the frame.
pub proof fn lemma_frame_round_trip(code: Seq<u8>, payload: Seq<u8>, rest: Seq<u8>)
    requires
        code.len() <= MAX_CODE_LEN,
        payload.len() <= MAX_PAYLOAD_LEN,
    ensures
        unframe_model(framed_bytes(code, payload) + rest) == (UnframeModel::Decoded {
            code,
            payload,
            used: framed_bytes(code, payload).len() as int,
        }),
{
    let f = framed_bytes(code, payload);
    let b = f + rest;
    let code_len = code.len() as int;
    let payload_len = payload.len() as int;
    let header = 5 + code_len;
    let total = header + payload_len + 2;
    assert(b[2] == code_len as u8);
    assert(b[3 + code_len] == len_hi(payload_len) && b[4 + code_len] == len_lo(payload_len));
    assert(len_hi(payload_len) * 256 + len_lo(payload_len) == payload_len);
    assert(b[total - 2] == FRAME_END_BYTE && b[total - 1] == FRAME_END_BYTE);
    assert(b.subrange(3, 3 + code_len) =~= code);
    assert(b.subrange(header, header + payload_len) =~= payload);
}

/// Law: the decoder is sound — whatever it decodes is byte for byte the
/// encoding of the code and payload it returns, within the protocol's
/// length bounds.  Together with the round trip this makes the decoded
/// fields the only possible reading of the consumed bytes.
pub proof fn lemma_unframe_sound(b: Seq<u8>, code: Seq<u8>, payload: Seq<u8>, used: int)
    requires
        unframe_model(b) == (UnframeModel::Decoded { code, payload, used }),
    ensures
        code.len() <= MAX_CODE_LEN,
        payload.len() <= MAX_PAYLOAD_LEN,
        0 <= used <= b.len(),
        b.subrange(0, used) == framed_bytes(code, payload),
{
    let code_len = b[2] as int;
    let header = 5 + code_len;
    let payload_len = b[3 + code_len] * 256 + b[4 + code_len];
    vstd::arithmetic::div_mod::lemma_div_multiples_vanish_fancy(
        b[3 + code_len] as int,
        b[4 + code_len] as int,
        256,
    );
    vstd::arithmetic::div_mod::lemma_mod_multiples_vanish(
        b[3 + code_len] as int,
        b[4 + code_len] as int,
        256,
    );
    vstd::arithmetic::div_mod::lemma_small_mod(b[4 + code_len] as nat, 256);
    assert(payload_len == 256 * (b[3 + code_len] as int) + b[4 + code_len]);
    assert(len_hi(payload_len) == b[3 + code_len]);
    assert(len_lo(payload_len) == b[4 + code_len]);
    assert(b.subrange(0, used) =~= framed_bytes(code, payload));
}

/// Law: a frame whose end sentinel was corrupted is a fatal decode error,
/// never resynchronized — the asymmetric recovery policy both peers rely
/// on.
pub proof fn lemma_bad_end_is_fatal(
    code: Seq<u8>,
    payload: Seq<u8>,
    e0: u8,
    e1: u8,
    rest: Seq<u8>,
)
    requires
        code.len() <= MAX_CODE_LEN,
        payload.len() <= MAX_PAYLOAD_LEN,
        e0 != FRAME_END_BYTE || e1 != FRAME_END_BYTE,
    ensures
        unframe_model(
            framed_bytes(code, payload).subrange(
                0,
                framed_bytes(code, payload).len() - 2,
            ) + seq![e0, e1] + rest,
        ) == UnframeModel::Corrupt,
{
    let f = framed_bytes(code, payload);
    let body = f.subrange(0, f.len() - 2);
    let b = body + seq![e0, e1] + rest;
    let code_len = code.len() as int;
    let payload_len = payload.len() as int;
    let header = 5 + code_len;
    let total = header + payload_len + 2;
    assert(b[0] == FRAME_START_BYTE && b[1] == FRAME_START_BYTE);
    assert(b[2] == code_len as u8);
    assert(b[3 + code_len] == len_hi(payload_len) && b[4 + code_len] == len_lo(payload_len));
    assert(len_hi(payload_len) * 256 + len_lo(payload_len) == payload_len);
    assert(b[total - 2] == e0 && b[total - 1] == e1);
}

/// Law: a buffer that does not begin with the start sentinel is skipped
/// one byte at a time — the decoder keeps scanning instead of failing.
pub proof fn lemma_bad_start_skips(b: Seq<u8>)
    requires
        b.len() >= 1,
        b[0] != FRAME_START_BYTE || (b.len() >= 2 && b[1] != FRAME_START_BYTE),
    ensures
        unframe_model(b) == UnframeModel::SkipByte,
{
}

/// Why a tagged frame was rejected fatally.
#[derive(Clone, Copy, PartialEq, Eq, Structural, Debug)]
pub enum FrameError {
    /// The sender-identifier length overruns the declared frame length.
    BadIdLength,
    /// The code length overruns the declared frame length.
    BadCodeLength,
    /// The payload length disagrees with the declared frame length.
    BadPayloadLength,
    /// The end sentinel did not match.
    BadEndSentinel,
}

/// The bytes of a tagged frame for `sender`, `code` and `payload`.
pub open spec fn tagged_frame_len(sender: Seq<u8>, code: Seq<u8>, payload: Seq<u8>) -> int {
    6 + sender.len() as int + code.len() as int + payload.len() as int
}

/// The bytes of a tagged frame: the minimal format extended with an
/// overall frame length (every byte between the sentinels) and a
/// length-prefixed sender identifier.
pub open spec fn tagged_frame_bytes(sender: Seq<u8>, code: Seq<u8>, payload: Seq<u8>) -> Seq<u8> {
    let frame_len = tagged_frame_len(sender, code, payload);
    seq![
        FRAME_START_BYTE,
        FRAME_START_BYTE,
        len_hi(frame_len),
        len_lo(frame_len),
        sender.len() as u8,
    ] + sender + seq![code.len() as u8] + code + seq![
        len_hi(payload.len() as int),
        len_lo(payload.len() as int),
    ] + payload + seq![FRAME_END_BYTE, FRAME_END_BYTE]
}

/// One step of the tagged-format decoder, over executable values.
pub enum TaggedStep {
    /// At least `demand` bytes (from the scan position) are needed.
    NeedMore { demand: usize },
    /// Not a frame start: drop one byte and rescan (recoverable).
    SkipByte,
    /// A whole frame was decoded; `used` bytes were consumed.
    Decoded { sender: Vec<u8>, code: Vec<u8>, payload: Vec<u8>, used: usize },
    /// The frame is structurally corrupt: fatal by design.
    Fatal { why: FrameError },
}

/// One step of the tagged-format decoder, over mathematical values.
pub enum TaggedModel {
    NeedMore { demand: int },
    SkipByte,
    Decoded { sender: Seq<u8>, code: Seq<u8>, payload: Seq<u8>, used: int },
    Fatal { why: FrameError },
}

impl View for TaggedStep {
    type V = TaggedModel;

    open spec fn view(&self) -> TaggedModel {
        match self {
            TaggedStep::NeedMore { demand } => TaggedModel::NeedMore { demand: *demand as int },
            TaggedStep::SkipByte => TaggedModel::SkipByte,
            TaggedStep::Decoded { sender, code, payload, used } => TaggedModel::Decoded {
                sender: sender@,
                code: code@,
                payload: payload@,
                used: *used as int,
            },
            TaggedStep::Fatal { why } => TaggedModel::Fatal { why: *why },
        }
    }
}

/// What the tagged-format decoder decides on the byte sequence `b`.
pub open spec fn unframe_tagged_model(b: Seq<u8>) -> TaggedModel {
    if b.len() >= 1 && b[0] != FRAME_START_BYTE {
        TaggedModel::SkipByte
    } else if b.len() >= 2 && b[1] != FRAME_START_BYTE {
        TaggedModel::SkipByte
    } else if b.len() < 5 {
        TaggedModel::NeedMore { demand: 5 }
    } else {
        let frame_len = b[2] * 256 + b[3];
        let total = frame_len + 4;
        let id_len = b[4] as int;
        if 6 + id_len > total {
            TaggedModel::Fatal { why: FrameError::BadIdLength }
        } else if b.len() < total {
            TaggedModel::NeedMore { demand: total }
        } else {
            let code_len = b[5 + id_len] as int;
            let payload_len_x = 6 + id_len + code_len;
            let payload_x = payload_len_x + 2;
            if payload_x > total {
                TaggedModel::Fatal { why: FrameError::BadCodeLength }
            } else {
                let payload_len = b[payload_len_x] * 256 + b[payload_len_x + 1];
                let frame_end_x = payload_x + payload_len;
                if frame_end_x + 2 != total {
                    TaggedModel::Fatal { why: FrameError::BadPayloadLength }
                } else if b[frame_end_x] != FRAME_END_BYTE || b[frame_end_x + 1]
                    != FRAME_END_BYTE {
                    TaggedModel::Fatal { why: FrameError::BadEndSentinel }
                } else {
                    TaggedModel::Decoded {
                        sender: b.subrange(5, 5 + id_len),
                        code: b.subrange(6 + id_len, 6 + id_len + code_len),
                        payload: b.subrange(payload_x, frame_end_x),
                        used: total,
                    }
                }
            }
        }
    }
}

/// Builds a tagged frame around `sender`, `code` and `payload`.
pub fn frame_message_tagged(sender: &Vec<u8>, code: &Vec<u8>, payload: &Vec<u8>) -> (r: Vec<u8>)
    requires
        sender@.len() <= 255,
        code@.len() <= MAX_CODE_LEN,
        payload@.len() <= MAX_PAYLOAD_LEN,
        tagged_frame_len(sender@, code@, payload@) <= 65535,
    ensures
        r@ == tagged_frame_bytes(sender@, code@, payload@),
{
    let frame_len: usize = 6 + sender.len() + code.len() + payload.len();
    let mut r: Vec<u8> = Vec::new();
    r.push(FRAME_START_BYTE);
    r.push(FRAME_START_BYTE);
    r.push((frame_len / 256) as u8);
    r.push((frame_len % 256) as u8);
    r.push(sender.len() as u8);
    r.extend_from_slice(sender.as_slice());
    r.push(code.len() as u8);
    r.extend_from_slice(code.as_slice());
    let payload_len = payload.len();
    r.push((payload_len / 256) as u8);
    r.push((payload_len % 256) as u8);
    r.extend_from_slice(payload.as_slice());
    r.push(FRAME_END_BYTE);
    r.push(FRAME_END_BYTE);
    proof {
        assert(r@ =~= tagged_frame_bytes(sender@, code@, payload@));
    }
    r
}

/// Decodes at most one tagged frame from `buf`, starting at position
/// `from`, with the same scan/abort discipline as [`unframe_message`].
pub fn unframe_message_tagged(buf: &Vec<u8>, from: usize) -> (step: TaggedStep)
    requires
        from <= buf.len(),
    ensures
        step@ == unframe_tagged_model(buf@.skip(from as int)),
{
    let ghost b = buf@.skip(from as int);
    let avail = buf.len() - from;
    if avail >= 1 && buf[from] != FRAME_START_BYTE {
        TaggedStep::SkipByte
    } else if avail >= 2 && buf[from + 1] != FRAME_START_BYTE {
        TaggedStep::SkipByte
    } else if avail < 5 {
        TaggedStep::NeedMore { demand: 5 }
    } else {
        let frame_len = (buf[from + 2] as usize) * 256 + (buf[from + 3] as usize);
        let total = frame_len + 4;
        let id_len = buf[from + 4] as usize;
        if 6 + id_len > total {
            TaggedStep::Fatal { why: FrameError::BadIdLength }
        } else if avail < total {
            TaggedStep::NeedMore { demand: total }
        } else {
            let code_len = buf[from + 5 + id_len] as usize;
            let payload_len_x = 6 + id_len + code_len;
            let payload_x = payload_len_x + 2;
            if payload_x > total {
                TaggedStep::Fatal { why: FrameError::BadCodeLength }
            } else {
                let payload_len = (buf[from + payload_len_x] as usize) * 256 + (buf[from
                    + payload_len_x + 1] as usize);
                let frame_end_x = payload_x + payload_len;
                if frame_end_x + 2 != total {
                    TaggedStep::Fatal { why: FrameError::BadPayloadLength }
                } else if buf[from + frame_end_x] != FRAME_END_BYTE || buf[from + frame_end_x + 1]
                    != FRAME_END_BYTE {
                    TaggedStep::Fatal { why: FrameError::BadEndSentinel }
                } else {
                    let sender = copy_range(buf, from + 5, from + 5 + id_len);
                    let code = copy_range(buf, from + 6 + id_len, from + 6 + id_len + code_len);
                    let payload = copy_range(buf, from + payload_x, from + frame_end_x);
                    proof {
                        assert(sender@ =~= b.subrange(5, 5 + id_len as int));
                        assert(code@ =~= b.subrange(
                            6 + id_len as int,
                            6 + id_len as int + code_len as int,
                        ));
                        assert(payload@ =~= b.subrange(payload_x as int, frame_end_x as int));
                    }
                    TaggedStep::Decoded { sender, code, payload, used: total }
                }
            }
        }
    }
}

/// Scans `buf` from position `from` for the next tagged frame, with the
/// same skip-and-rescan discipline as [`unframe_scan`].
pub fn unframe_scan_tagged(buf: &Vec<u8>, from: usize) -> (r: (usize, TaggedStep))
    requires
        from <= buf.len(),
    ensures
        from + r.0 <= buf.len(),
        !(r.1@ is SkipByte),
        r.1@ == unframe_tagged_model(buf@.skip(from + r.0)),
        forall|k: int|
            0 <= k < r.0 ==> #[trigger] unframe_tagged_model(buf@.skip(from + k)) is SkipByte,
{
    let mut skipped: usize = 0;
    loop
        invariant
            from + skipped <= buf.len(),
            forall|k: int|
                0 <= k < skipped ==> #[trigger] unframe_tagged_model(buf@.skip(from + k)) is SkipByte,
        decreases buf.len() - from - skipped,
    {
        let step = unframe_message_tagged(buf, from + skipped);
        match step {
            TaggedStep::SkipByte => {
                skipped = skipped + 1;
            },
            _ => {
                return (skipped, step);
            },
        }
    }
}

/// Law: the tagged codec round-trips.  Decoding a buffer that starts with
/// the encoding of any valid `sender`, `code` and `payload` yields exactly
/// those fields, whatever bytes follow the frame.
pub proof fn lemma_tagged_round_trip(
    sender: Seq<u8>,
    code: Seq<u8>,
    payload: Seq<u8>,
    rest: Seq<u8>,
)
    requires
        sender.len() <= 255,
        code.len() <= MAX_CODE_LEN,
        payload.len() <= MAX_PAYLOAD_LEN,
        tagged_frame_len(sender, code, payload) <= 65535,
    ensures
        unframe_tagged_model(tagged_frame_bytes(sender, code, payload) + rest)
            == (TaggedModel::Decoded {
            sender,
            code,
            payload,
            used: tagged_frame_bytes(sender, code, payload).len() as int,
        }),
{
    let f = tagged_frame_bytes(sender, code, payload);
    let b = f + rest;
    let id_len = sender.len() as int;
    let code_len = code.len() as int;
    let payload_len = payload.len() as int;
    let frame_len = tagged_frame_len(sender, code, payload);
    let total = frame_len + 4;
    assert(b[2] == len_hi(frame_len) && b[3] == len_lo(frame_len));
    assert(len_hi(frame_len) * 256 + len_lo(frame_len) == frame_len);
    assert(b[4] == id_len as u8);
    assert(b[5 + id_len] == code_len as u8);
    let payload_len_x = 6 + id_len + code_len;
    assert(b[payload_len_x] == len_hi(payload_len) && b[payload_len_x + 1] == len_lo(
        payload_len,
    ));
    assert(len_hi(payload_len) * 256 + len_lo(payload_len) == payload_len);
    let payload_x = payload_len_x + 2;
    let frame_end_x = payload_x + payload_len;
    assert(b[frame_end_x] == FRAME_END_BYTE && b[frame_end_x + 1] == FRAME_END_BYTE);
    assert(b.subrange(5, 5 + id_len) =~= sender);
    assert(b.subrange(6 + id_len, 6 + id_len + code_len) =~= code);
    assert(b.subrange(payload_x, frame_end_x) =~= payload);
}

/// Law: the tagged decoder is sound — whatever it decodes is byte for
/// byte the encoding of the sender, code and payload it returns, within
/// the protocol's length bounds.
pub proof fn lemma_unframe_tagged_sound(
    b: Seq<u8>,
    sender: Seq<u8>,
    code: Seq<u8>,
    payload: Seq<u8>,
    used: int,
)
    requires
        unframe_tagged_model(b) == (TaggedModel::Decoded { sender, code, payload, used }),
    ensures
        sender.len() <= 255,
        code.len() <= MAX_CODE_LEN,
        payload.len() <= MAX_PAYLOAD_LEN,
        tagged_frame_len(sender, code, payload) <= 65535,
        0 <= used <= b.len(),
        b.subrange(0, used) == tagged_frame_bytes(sender, code, payload),
{
    let frame_len = b[2] * 256 + b[3];
    let id_len = b[4] as int;
    let code_len = b[5 + id_len] as int;
    let payload_len_x = 6 + id_len + code_len;
    let payload_len = b[payload_len_x] * 256 + b[payload_len_x + 1];
    vstd::arithmetic::div_mod::lemma_div_multiples_vanish_fancy(
        b[2] as int,
        b[3] as int,
        256,
    );
    vstd::arithmetic::div_mod::lemma_mod_multiples_vanish(b[2] as int, b[3] as int, 256);
    vstd::arithmetic::div_mod::lemma_small_mod(b[3] as nat, 256);
    assert(frame_len == 256 * (b[2] as int) + b[3]);
    assert(len_hi(frame_len) == b[2]);
    assert(len_lo(frame_len) == b[3]);
    vstd::arithmetic::div_mod::lemma_div_multiples_vanish_fancy(
        b[payload_len_x] as int,
        b[payload_len_x + 1] as int,
        256,
    );
    vstd::arithmetic::div_mod::lemma_mod_multiples_vanish(
        b[payload_len_x] as int,
        b[payload_len_x + 1] as int,
        256,
    );
    vstd::arithmetic::div_mod::lemma_small_mod(b[payload_len_x + 1] as nat, 256);
    assert(payload_len == 256 * (b[payload_len_x] as int) + b[payload_len_x + 1]);
    assert(len_hi(payload_len) == b[payload_len_x]);
    assert(len_lo(payload_len) == b[payload_len_x + 1]);
    assert(frame_len == tagged_frame_len(sender, code, payload));
    assert(b.subrange(0, used) =~= tagged_frame_bytes(sender, code, payload));
}

/// Law: a tagged frame whose end sentinel was corrupted is a fatal decode
/// error, never resynchronized.
pub proof fn lemma_tagged_bad_end_is_fatal(
    sender: Seq<u8>,
    code: Seq<u8>,
    payload: Seq<u8>,
    e0: u8,
    e1: u8,
    rest: Seq<u8>,
)
    requires
        sender.len() <= 255,
        code.len() <= MAX_CODE_LEN,
        payload.len() <= MAX_PAYLOAD_LEN,
        tagged_frame_len(sender, code, payload) <= 65535,
        e0 != FRAME_END_BYTE || e1 != FRAME_END_BYTE,
    ensures
        unframe_tagged_model(
            tagged_frame_bytes(sender, code, payload).subrange(
                0,
                tagged_frame_bytes(sender, code, payload).len() - 2,
            ) + seq![e0, e1] + rest,
        ) == (TaggedModel::Fatal { why: FrameError::BadEndSentinel }),
{
    let f = tagged_frame_bytes(sender, code, payload);
    let body = f.subrange(0, f.len() - 2);
    let b = body + seq![e0, e1] + rest;
    let id_len = sender.len() as int;
    let code_len = code.len() as int;
    let payload_len = payload.len() as int;
    let frame_len = tagged_frame_len(sender, code, payload);
    assert(b[0] == FRAME_START_BYTE && b[1] == FRAME_START_BYTE);
    assert(b[2] == len_hi(frame_len) && b[3] == len_lo(frame_len));
    assert(len_hi(frame_len) * 256 + len_lo(frame_len) == frame_len);
    assert(b[4] == id_len as u8);
    assert(b[5 + id_len] == code_len as u8);
    let payload_len_x = 6 + id_len + code_len;
    assert(b[payload_len_x] == len_hi(payload_len) && b[payload_len_x + 1] == len_lo(
        payload_len,
    ));
    assert(len_hi(payload_len) * 256 + len_lo(payload_len) == payload_len);
    let frame_end_x = payload_len_x + 2 + payload_len;
    assert(b[frame_end_x] == e0 && b[frame_end_x + 1] == e1);
}

} // verus!
