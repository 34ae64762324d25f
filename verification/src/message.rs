//! Message codes and payloads of the panel protocol.
//!
//! Every frame carries an ASCII message code and an opaque payload.  The
//! payloads the protocol uses are tiny: nothing, one boolean, one lamp
//! intensity, or one intensity per register bit.  Boolean payloads travel
//! in bincode's one-byte encoding (1 for true, 0 for false); intensities
//! travel as floating-point fractions built by the I/O layer from the
//! fixed-point values modelled here.

use vstd::prelude::*;

verus! {

/// The message codes of the protocol.
#[derive(Clone, Copy, PartialEq, Eq, Structural, Debug)]
pub enum MessageCode {
    /// `STAT`: client asks for a full status snapshot.
    Stat,
    /// `ESTAT`: server marks the end of a snapshot.
    EStat,
    /// `POWER`: power toggle (boolean payload).
    Power,
    /// `NOPRO`: no-protection toggle (boolean payload).
    NoPro,
    /// `MANL`: manual toggle (boolean payload).
    Manl,
    /// `PLTMN`: plotter-manual toggle (boolean payload).
    Pltmn,
    /// `CLEAR`: clear the primary register.
    Clear,
    /// `RESET`: arm the self-expiring reset state.
    Reset,
    /// `INIT`: initial-instructions trigger.
    Init,
    /// `SHUT`: orderly connection shutdown.
    Shut,
    /// `KILL`: the peer is gone; tear the connection down.
    Kill,
    /// `BUSY`: busy flip-flop glow (single intensity).
    Busy,
    /// `XFER`: transfer lamp glow.
    Xfer,
    /// `AC`: air-condition lamp glow.
    Ac,
    /// `ERROR`: error lamp glow.
    Error,
    /// `TAG`: tag lamp glow.
    Tag,
    /// `THOLD`: type-hold lamp glow.
    THold,
    /// `BSPAR`: backing-store parity lamp glow.
    BsPar,
    /// `A`: the primary register's glow, one intensity per bit.
    ARegister,
    /// `WRU`: the server probes a new connection for its identity.
    Wru,
    /// `IAM`: the client answers a `WRU` probe.
    Iam,
}

/// The ASCII bytes of each message code.
pub open spec fn code_bytes_spec(c: MessageCode) -> Seq<u8> {
    match c {
        MessageCode::Stat => seq![0x53, 0x54, 0x41, 0x54],
        MessageCode::EStat => seq![0x45, 0x53, 0x54, 0x41, 0x54],
        MessageCode::Power => seq![0x50, 0x4F, 0x57, 0x45, 0x52],
        MessageCode::NoPro => seq![0x4E, 0x4F, 0x50, 0x52, 0x4F],
        MessageCode::Manl => seq![0x4D, 0x41, 0x4E, 0x4C],
        MessageCode::Pltmn => seq![0x50, 0x4C, 0x54, 0x4D, 0x4E],
        MessageCode::Clear => seq![0x43, 0x4C, 0x45, 0x41, 0x52],
        MessageCode::Reset => seq![0x52, 0x45, 0x53, 0x45, 0x54],
        MessageCode::Init => seq![0x49, 0x4E, 0x49, 0x54],
        MessageCode::Shut => seq![0x53, 0x48, 0x55, 0x54],
        MessageCode::Kill => seq![0x4B, 0x49, 0x4C, 0x4C],
        MessageCode::Busy => seq![0x42, 0x55, 0x53, 0x59],
        MessageCode::Xfer => seq![0x58, 0x46, 0x45, 0x52],
        MessageCode::Ac => seq![0x41, 0x43],
        MessageCode::Error => seq![0x45, 0x52, 0x52, 0x4F, 0x52],
        MessageCode::Tag => seq![0x54, 0x41, 0x47],
        MessageCode::THold => seq![0x54, 0x48, 0x4F, 0x4C, 0x44],
        MessageCode::BsPar => seq![0x42, 0x53, 0x50, 0x41, 0x52],
        MessageCode::ARegister => seq![0x41],
        MessageCode::Wru => seq![0x57, 0x52, 0x55],
        MessageCode::Iam => seq![0x49, 0x41, 0x4D],
    }
}

/// The message code spelled by `b`, if any.
pub open spec fn code_of_spec(b: Seq<u8>) -> Option<MessageCode> {
    if b == code_bytes_spec(MessageCode::Stat) {
        Some(MessageCode::Stat)
    } else if b == code_bytes_spec(MessageCode::EStat) {
        Some(MessageCode::EStat)
    } else if b == code_bytes_spec(MessageCode::Power) {
        Some(MessageCode::Power)
    } else if b == code_bytes_spec(MessageCode::NoPro) {
        Some(MessageCode::NoPro)
    } else if b == code_bytes_spec(MessageCode::Manl) {
        Some(MessageCode::Manl)
    } else if b == code_bytes_spec(MessageCode::Pltmn) {
        Some(MessageCode::Pltmn)
    } else if b == code_bytes_spec(MessageCode::Clear) {
        Some(MessageCode::Clear)
    } else if b == code_bytes_spec(MessageCode::Reset) {
        Some(MessageCode::Reset)
    } else if b == code_bytes_spec(MessageCode::Init) {
        Some(MessageCode::Init)
    } else if b == code_bytes_spec(MessageCode::Shut) {
        Some(MessageCode::Shut)
    } else if b == code_bytes_spec(MessageCode::Kill) {
        Some(MessageCode::Kill)
    } else if b == code_bytes_spec(MessageCode::Busy) {
        Some(MessageCode::Busy)
    } else if b == code_bytes_spec(MessageCode::Xfer) {
        Some(MessageCode::Xfer)
    } else if b == code_bytes_spec(MessageCode::Ac) {
        Some(MessageCode::Ac)
    } else if b == code_bytes_spec(MessageCode::Error) {
        Some(MessageCode::Error)
    } else if b == code_bytes_spec(MessageCode::Tag) {
        Some(MessageCode::Tag)
    } else if b == code_bytes_spec(MessageCode::THold) {
        Some(MessageCode::THold)
    } else if b == code_bytes_spec(MessageCode::BsPar) {
        Some(MessageCode::BsPar)
    } else if b == code_bytes_spec(MessageCode::ARegister) {
        Some(MessageCode::ARegister)
    } else if b == code_bytes_spec(MessageCode::Wru) {
        Some(MessageCode::Wru)
    } else if b == code_bytes_spec(MessageCode::Iam) {
        Some(MessageCode::Iam)
    } else {
        None
    }
}

/// Builds the ASCII bytes of a message code.
pub fn code_bytes(c: MessageCode) -> (r: Vec<u8>)
    ensures
        r@ == code_bytes_spec(c),
{
    let bytes: &[u8] = match c {
        MessageCode::Stat => &[0x53, 0x54, 0x41, 0x54],
        MessageCode::EStat => &[0x45, 0x53, 0x54, 0x41, 0x54],
        MessageCode::Power => &[0x50, 0x4F, 0x57, 0x45, 0x52],
        MessageCode::NoPro => &[0x4E, 0x4F, 0x50, 0x52, 0x4F],
        MessageCode::Manl => &[0x4D, 0x41, 0x4E, 0x4C],
        MessageCode::Pltmn => &[0x50, 0x4C, 0x54, 0x4D, 0x4E],
        MessageCode::Clear => &[0x43, 0x4C, 0x45, 0x41, 0x52],
        MessageCode::Reset => &[0x52, 0x45, 0x53, 0x45, 0x54],
        MessageCode::Init => &[0x49, 0x4E, 0x49, 0x54],
        MessageCode::Shut => &[0x53, 0x48, 0x55, 0x54],
        MessageCode::Kill => &[0x4B, 0x49, 0x4C, 0x4C],
        MessageCode::Busy => &[0x42, 0x55, 0x53, 0x59],
        MessageCode::Xfer => &[0x58, 0x46, 0x45, 0x52],
        MessageCode::Ac => &[0x41, 0x43],
        MessageCode::Error => &[0x45, 0x52, 0x52, 0x4F, 0x52],
        MessageCode::Tag => &[0x54, 0x41, 0x47],
        MessageCode::THold => &[0x54, 0x48, 0x4F, 0x4C, 0x44],
        MessageCode::BsPar => &[0x42, 0x53, 0x50, 0x41, 0x52],
        MessageCode::ARegister => &[0x41],
        MessageCode::Wru => &[0x57, 0x52, 0x55],
        MessageCode::Iam => &[0x49, 0x41, 0x4D],
    };
    let mut r: Vec<u8> = Vec::new();
    r.extend_from_slice(bytes);
    proof {
        assert(r@ =~= code_bytes_spec(c));
    }
    r
}

/// Compares a received code field against one known code.
fn is_code(b: &Vec<u8>, c: MessageCode) -> (r: bool)
    ensures
        r == (b@ == code_bytes_spec(c)),
{
    let expected = code_bytes(c);
    if b.len() != expected.len() {
        return false;
    }
    let n = b.len();
    let mut i: usize = 0;
    while i < n
        invariant
            i <= n,
            n == b.len() == expected.len(),
            expected@ == code_bytes_spec(c),
            forall|j: int| 0 <= j < i ==> b@[j] == expected@[j],
        decreases n - i,
    {
        if b[i] != expected[i] {
            return false;
        }
        i = i + 1;
    }
    proof {
        assert(b@ =~= expected@);
    }
    true
}

/// Parses a received code field into a message code, if it spells one.
pub fn parse_code(b: &Vec<u8>) -> (r: Option<MessageCode>)
    ensures
        r == code_of_spec(b@),
{
    if is_code(b, MessageCode::Stat) {
        Some(MessageCode::Stat)
    } else if is_code(b, MessageCode::EStat) {
        Some(MessageCode::EStat)
    } else if is_code(b, MessageCode::Power) {
        Some(MessageCode::Power)
    } else if is_code(b, MessageCode::NoPro) {
        Some(MessageCode::NoPro)
    } else if is_code(b, MessageCode::Manl) {
        Some(MessageCode::Manl)
    } else if is_code(b, MessageCode::Pltmn) {
        Some(MessageCode::Pltmn)
    } else if is_code(b, MessageCode::Clear) {
        Some(MessageCode::Clear)
    } else if is_code(b, MessageCode::Reset) {
        Some(MessageCode::Reset)
    } else if is_code(b, MessageCode::Init) {
        Some(MessageCode::Init)
    } else if is_code(b, MessageCode::Shut) {
        Some(MessageCode::Shut)
    } else if is_code(b, MessageCode::Kill) {
        Some(MessageCode::Kill)
    } else if is_code(b, MessageCode::Busy) {
        Some(MessageCode::Busy)
    } else if is_code(b, MessageCode::Xfer) {
        Some(MessageCode::Xfer)
    } else if is_code(b, MessageCode::Ac) {
        Some(MessageCode::Ac)
    } else if is_code(b, MessageCode::Error) {
        Some(MessageCode::Error)
    } else if is_code(b, MessageCode::Tag) {
        Some(MessageCode::Tag)
    } else if is_code(b, MessageCode::THold) {
        Some(MessageCode::THold)
    } else if is_code(b, MessageCode::BsPar) {
        Some(MessageCode::BsPar)
    } else if is_code(b, MessageCode::ARegister) {
        Some(MessageCode::ARegister)
    } else if is_code(b, MessageCode::Wru) {
        Some(MessageCode::Wru)
    } else if is_code(b, MessageCode::Iam) {
        Some(MessageCode::Iam)
    } else {
        None
    }
}

/// Law: code encoding and parsing round-trip for every message code.
pub proof fn lemma_code_round_trip(c: MessageCode)
    ensures
        code_of_spec(code_bytes_spec(c)) == Some(c),
{
    // Distinct codes spell distinct byte strings, so the parse chain stops
    // exactly at `c`; comparing the sequences byte by byte settles each
    // earlier branch.
    let b = code_bytes_spec(c);
    match c {
        MessageCode::Stat => assert(code_of_spec(b) == Some(c)),
        MessageCode::EStat => assert(code_of_spec(b) == Some(c)),
        MessageCode::Power => assert(code_of_spec(b) == Some(c)),
        MessageCode::NoPro => assert(code_of_spec(b) == Some(c)),
        MessageCode::Manl => assert(code_of_spec(b) == Some(c)),
        MessageCode::Pltmn => assert(code_of_spec(b) == Some(c)),
        MessageCode::Clear => assert(code_of_spec(b) == Some(c)),
        MessageCode::Reset => assert(code_of_spec(b) == Some(c)),
        MessageCode::Init => assert(code_of_spec(b) == Some(c)),
        MessageCode::Shut => assert(code_of_spec(b) == Some(c)),
        MessageCode::Kill => assert(code_of_spec(b) == Some(c)),
        MessageCode::Busy => assert(code_of_spec(b) == Some(c)),
        MessageCode::Xfer => assert(code_of_spec(b) == Some(c)),
        MessageCode::Ac => assert(code_of_spec(b) == Some(c)),
        MessageCode::Error => assert(code_of_spec(b) == Some(c)),
        MessageCode::Tag => assert(code_of_spec(b) == Some(c)),
        MessageCode::THold => assert(code_of_spec(b) == Some(c)),
        MessageCode::BsPar => assert(code_of_spec(b) == Some(c)),
        MessageCode::ARegister => {
            assert(b.len() == 1);
            assert(b != code_bytes_spec(MessageCode::Stat));
            assert(b != code_bytes_spec(MessageCode::EStat));
            assert(b != code_bytes_spec(MessageCode::Power));
            assert(b != code_bytes_spec(MessageCode::NoPro));
            assert(b != code_bytes_spec(MessageCode::Manl));
            assert(b != code_bytes_spec(MessageCode::Pltmn));
            assert(b != code_bytes_spec(MessageCode::Clear));
            assert(b != code_bytes_spec(MessageCode::Reset));
            assert(b != code_bytes_spec(MessageCode::Init));
            assert(b != code_bytes_spec(MessageCode::Shut));
            assert(b != code_bytes_spec(MessageCode::Kill));
            assert(b != code_bytes_spec(MessageCode::Busy));
            assert(b != code_bytes_spec(MessageCode::Xfer));
            assert(b != code_bytes_spec(MessageCode::Ac));
            assert(b != code_bytes_spec(MessageCode::Error));
            assert(b != code_bytes_spec(MessageCode::Tag));
            assert(b != code_bytes_spec(MessageCode::THold));
            assert(b != code_bytes_spec(MessageCode::BsPar));
            assert(code_of_spec(b) == Some(c));
        },
        MessageCode::Wru => assert(code_of_spec(b) == Some(c)),
        MessageCode::Iam => assert(code_of_spec(b) == Some(c)),
    }
}

/// A message payload, as the dispatch logic sees it.  The I/O layer maps
/// wire bytes to and from these plain values.
pub enum Payload {
    /// No payload bytes.
    Empty,
    /// One boolean, as carried by the toggle messages.
    Flag(bool),
    /// One lamp intensity, fixed-point within the glow scale.
    Glow(u32),
    /// One lamp intensity per register bit, least significant first.
    GlowVec(Vec<u32>),
}

/// The mathematical value of a [`Payload`].
pub enum PayloadModel {
    Empty,
    Flag(bool),
    Glow(u32),
    GlowSeq(Seq<u32>),
}

impl View for Payload {
    type V = PayloadModel;

    open spec fn view(&self) -> PayloadModel {
        match self {
            Payload::Empty => PayloadModel::Empty,
            Payload::Flag(v) => PayloadModel::Flag(*v),
            Payload::Glow(g) => PayloadModel::Glow(*g),
            Payload::GlowVec(g) => PayloadModel::GlowSeq(g@),
        }
    }
}

/// An outbound protocol message: a code and its payload value.
pub struct OutMessage {
    /// The message code.
    pub code: MessageCode,
    /// The payload value.
    pub body: Payload,
}

/// The mathematical value of an [`OutMessage`].
pub struct OutMessageModel {
    pub code: MessageCode,
    pub body: PayloadModel,
}

impl View for OutMessage {
    type V = OutMessageModel;

    open spec fn view(&self) -> OutMessageModel {
        OutMessageModel { code: self.code, body: self.body@ }
    }
}

/// The payload shape each message code is defined to carry.
#[derive(Clone, Copy, PartialEq, Eq, Structural, Debug)]
pub enum PayloadKind {
    /// The payload is empty or ignored.
    Empty,
    /// One boolean.
    Flag,
    /// One lamp intensity.
    Glow,
    /// One lamp intensity per register bit.
    GlowVec,
}

/// The payload shape of each message code.
pub open spec fn payload_kind_spec(c: MessageCode) -> PayloadKind {
    match c {
        MessageCode::Power => PayloadKind::Flag,
        MessageCode::NoPro => PayloadKind::Flag,
        MessageCode::Manl => PayloadKind::Flag,
        MessageCode::Pltmn => PayloadKind::Flag,
        MessageCode::Reset => PayloadKind::Flag,
        MessageCode::Busy => PayloadKind::Glow,
        MessageCode::Xfer => PayloadKind::Glow,
        MessageCode::Ac => PayloadKind::Glow,
        MessageCode::Error => PayloadKind::Glow,
        MessageCode::Tag => PayloadKind::Glow,
        MessageCode::THold => PayloadKind::Glow,
        MessageCode::BsPar => PayloadKind::Glow,
        MessageCode::ARegister => PayloadKind::GlowVec,
        _ => PayloadKind::Empty,
    }
}

/// Returns the payload shape a message code carries, so the I/O layer
/// knows how to decode the payload bytes of a received frame.  `RESET`
/// carries a boolean in server telemetry and travels empty as a client
/// trigger; its flag shape covers both, since trigger payloads are
/// ignored.
pub fn payload_kind(c: MessageCode) -> (r: PayloadKind)
    ensures
        r == payload_kind_spec(c),
{
    match c {
        MessageCode::Power => PayloadKind::Flag,
        MessageCode::NoPro => PayloadKind::Flag,
        MessageCode::Manl => PayloadKind::Flag,
        MessageCode::Pltmn => PayloadKind::Flag,
        MessageCode::Reset => PayloadKind::Flag,
        MessageCode::Busy => PayloadKind::Glow,
        MessageCode::Xfer => PayloadKind::Glow,
        MessageCode::Ac => PayloadKind::Glow,
        MessageCode::Error => PayloadKind::Glow,
        MessageCode::Tag => PayloadKind::Glow,
        MessageCode::THold => PayloadKind::Glow,
        MessageCode::BsPar => PayloadKind::Glow,
        MessageCode::ARegister => PayloadKind::GlowVec,
        _ => PayloadKind::Empty,
    }
}

/// The one-byte wire encoding of a boolean payload: 1 for true, 0 for
/// false.  This is exactly how bincode encodes a `bool`, which is what
/// both peers put on the wire.
pub open spec fn flag_bytes(v: bool) -> Seq<u8> {
    seq![
        if v {
            1u8
        } else {
            0u8
        },
    ]
}

/// The boolean spelled by a payload, if any: a leading 1 is true, a
/// leading 0 is false, anything else (or an empty payload) is rejected.
/// Trailing bytes are ignored, as bincode's decoder ignores them.
pub open spec fn flag_parsed(b: Seq<u8>) -> Option<bool> {
    if b.len() >= 1 && b[0] == 1 {
        Some(true)
    } else if b.len() >= 1 && b[0] == 0 {
        Some(false)
    } else {
        None
    }
}

/// Encodes a boolean payload.
pub fn flag_payload(v: bool) -> (r: Vec<u8>)
    ensures
        r@ == flag_bytes(v),
{
    let mut r: Vec<u8> = Vec::new();
    if v {
        r.push(1);
    } else {
        r.push(0);
    }
    proof {
        assert(r@ =~= flag_bytes(v));
    }
    r
}

/// Decodes a boolean payload, rejecting any leading byte other than 0 or
/// 1 — a deserialization failure is fatal for the message, never a guess.
pub fn parse_flag_payload(b: &Vec<u8>) -> (r: Option<bool>)
    ensures
        r == flag_parsed(b@),
{
    if b.len() >= 1 && b[0] == 1 {
        Some(true)
    } else if b.len() >= 1 && b[0] == 0 {
        Some(false)
    } else {
        None
    }
}

/// Law: boolean payloads round-trip through the wire encoding.
pub proof fn lemma_flag_round_trip(v: bool)
    ensures
        flag_parsed(flag_bytes(v)) == Some(v),
{
}

} // verus!
