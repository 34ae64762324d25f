//! Server-side ground truth and dispatch.
//!
//! The server owns the registers, flip-flops and toggle booleans; one or
//! more panel clients mirror them.  [`ServerState::handle_message`]
//! applies one inbound message and says what to send back;
//! [`ServerState::tick_batch`] is one wake of the background tick loop
//! that advances the primary register while power is on.  The I/O layer
//! runs the loops, holds the lock and moves the produced messages to the
//! sockets; every decision about the shared state is made here.

use vstd::prelude::*;
use crate::clock::{sat_add, sat_ticks, EmulationClock};
use crate::glow::{bit_is_set, elapsed_ticks, glow_alpha, lemma_glow_snap, GLOW_SCALE};
use crate::message::{
    code_of_spec, flag_parsed, parse_code, parse_flag_payload, MessageCode, OutMessage,
    OutMessageModel, Payload, PayloadModel,
};
use crate::register::{glow_updated, signed_add_overflows, FlipFlop, Register};

verus! {

/// Bit width of the primary (`A`) register.
pub const A_REGISTER_BITS: u8 = 30;

/// Value seeded into the primary register at server start.
pub const BOOT_VALUE: u64 = 1234567;

/// Value added to the primary register when power comes on.
pub const POWER_SEED: u64 = 7654321;

/// Ticks of one background timer period (7.2 emulated microseconds).
pub const TIMER_PERIOD: u64 = 21600;

/// Ticks the clock leaps forward on a power transition (one million
/// emulated seconds), so the next glow update never sees a near-zero
/// elapsed time.
pub const POWER_CLOCK_LEAP: u64 = 3_000_000_000_000_000;

/// How many `STAT` polls an armed reset countdown lasts.
pub const RESET_POLLS: u32 = 15;

/// Register increments applied per wake of the background tick loop.
pub const TICKS_PER_WAKE: usize = 500;

/// The primary register's width as a mask, `(1 << 30) - 1`.
pub const A_REGISTER_MASK: u64 = 0x3FFF_FFFF;

/// The modulus of the primary register, `1 << 30`.
pub const A_REGISTER_MODULUS: u64 = 0x4000_0000;

/// The sign bit of the primary register, `1 << 29`.
pub const A_REGISTER_SIGN: u64 = 0x2000_0000;

/// The primary register's mask constants spelled as shifts.
proof fn lemma_a_register_masks()
    by (bit_vector)
    ensures
        1u64 << 30u64 == 0x4000_0000u64,
        1u64 << 29u64 == 0x2000_0000u64,
{
}

/// Bridges one masked increment of the primary register to modular
/// arithmetic: the masked successor is the successor modulo the register's
/// modulus, the low bit is the parity, and the signed-overflow test of
/// adding one fires exactly on the value just below the sign bit.
proof fn lemma_tick_step(v: u64)
    by (bit_vector)
    requires
        v & 0x3FFF_FFFFu64 == v,
    ensures
        v <= 0x3FFF_FFFFu64,
        ((v + 1) as u64) & 0x3FFF_FFFFu64 == ((v + 1) as u64) % 0x4000_0000u64,
        (v & 1u64 == 0) == (v % 2u64 == 0),
        ((v & 0x2000_0000u64) == (1u64 & 0x2000_0000u64) && ((1u64 & 0x2000_0000u64) != (((v
            + 1) as u64) & 0x2000_0000u64))) == (v == 0x1FFF_FFFFu64),
{
}

/// Whether the server terminates this connection's dispatch loop.
#[derive(Clone, Copy, PartialEq, Eq, Structural, Debug)]
pub enum ServerFlow {
    /// Keep receiving on this connection.
    Continue,
    /// Orderly shutdown of this connection's loops.
    Shut,
}

/// What the server answers to one inbound message.
pub struct ServerReply {
    /// Messages to queue on this connection's outbound path, in order.
    pub out: Vec<OutMessage>,
    /// Whether the connection's dispatch loop continues.
    pub flow: ServerFlow,
}

/// Why an inbound message was rejected.  A rejected message leaves the
/// shared state untouched; the connection that sent it is torn down.
#[derive(Clone, Copy, PartialEq, Eq, Structural, Debug)]
pub enum DispatchError {
    /// The payload of a known code failed to deserialize.
    BadPayload,
}

/// The view of a message list.
pub open spec fn msgs_view(v: Seq<OutMessage>) -> Seq<OutMessageModel> {
    v.map_values(|m: OutMessage| m@)
}

/// The authoritative emulated state: every register, flip-flop and toggle
/// boolean, the shared clock, and the pending reset countdown.  Mutated
/// only under one exclusive lock (held by the I/O layer around each call).
pub struct ServerState {
    /// The virtual clock shared by every register of this server.
    pub eclock: EmulationClock,
    /// `STAT` polls left until `reset_state` self-clears; 0 when unarmed.
    pub reset_countdown: u32,
    /// Power toggle.
    pub power_on: bool,
    /// No-protection toggle.
    pub no_protn: bool,
    /// Plotter-manual toggle.
    pub plotter_manual: bool,
    /// Manual toggle.
    pub manual_state: bool,
    /// Self-expiring reset toggle.
    pub reset_state: bool,
    /// Transfer lamp intensity.
    pub transfer_glow: u32,
    /// Air-condition lamp intensity.
    pub air_cond_glow: u32,
    /// Error lamp intensity.
    pub error_glow: u32,
    /// Tag lamp intensity.
    pub tag_glow: u32,
    /// Type-hold lamp intensity.
    pub type_hold_glow: u32,
    /// Backing-store parity lamp intensity.
    pub bs_parity_glow: u32,
    /// Busy flip-flop, toggled by the tick loop on the register's parity.
    pub busy_ff: FlipFlop,
    /// The primary (`A`) register.
    pub a_reg: Register,
}

impl ServerState {
    /// Well-formedness: the register and flip-flop invariants hold, the
    /// primary register has its fixed width, and every scalar lamp
    /// intensity is within the glow scale.
    pub open spec fn wf(&self) -> bool {
        &&& self.busy_ff.wf()
        &&& self.a_reg.wf()
        &&& self.a_reg.bits == A_REGISTER_BITS
        &&& self.transfer_glow <= GLOW_SCALE
        &&& self.air_cond_glow <= GLOW_SCALE
        &&& self.error_glow <= GLOW_SCALE
        &&& self.tag_glow <= GLOW_SCALE
        &&& self.type_hold_glow <= GLOW_SCALE
        &&& self.bs_parity_glow <= GLOW_SCALE
    }

    /// Boots the server state: power off, everything cleared and dark, the
    /// clock at zero, and the primary register seeded with [`BOOT_VALUE`].
    pub fn new() -> (s: ServerState)
        ensures
            s.wf(),
            s.eclock.ticks == 0,
            s.reset_countdown == 0,
            !s.power_on,
            !s.no_protn,
            !s.plotter_manual,
            !s.manual_state,
            !s.reset_state,
            s.transfer_glow == 0,
            s.air_cond_glow == 0,
            s.error_glow == 0,
            s.tag_glow == 0,
            s.type_hold_glow == 0,
            s.bs_parity_glow == 0,
            !s.busy_ff.value,
            s.a_reg.value == BOOT_VALUE,
            !s.a_reg.overflow,
            s.a_reg.mask == A_REGISTER_MASK,
            s.a_reg.power_mask == A_REGISTER_MODULUS,
            s.a_reg.sign_mask == A_REGISTER_SIGN,
    {
        proof {
            lemma_a_register_masks();
        }
        let eclock = EmulationClock::new(0);
        let mut a_reg = Register::new(A_REGISTER_BITS, 0);
        proof {
            assert(BOOT_VALUE & A_REGISTER_MASK == BOOT_VALUE) by (bit_vector);
        }
        a_reg.set(BOOT_VALUE, 0);
        ServerState {
            eclock,
            reset_countdown: 0,
            power_on: false,
            no_protn: false,
            plotter_manual: false,
            manual_state: false,
            reset_state: false,
            transfer_glow: 0,
            air_cond_glow: 0,
            error_glow: 0,
            tag_glow: 0,
            type_hold_glow: 0,
            bs_parity_glow: 0,
            busy_ff: FlipFlop::new(0),
            a_reg,
        }
    }

    /// The full telemetry snapshot of this state, in the order it is
    /// pushed to a client: every toggle boolean, every lamp intensity,
    /// every register glow, terminated by the explicit `ESTAT` marker.
    pub open spec fn status_out(self) -> Seq<OutMessageModel> {
        seq![
            OutMessageModel { code: MessageCode::Power, body: PayloadModel::Flag(self.power_on) },
            OutMessageModel { code: MessageCode::NoPro, body: PayloadModel::Flag(self.no_protn) },
            OutMessageModel {
                code: MessageCode::Manl,
                body: PayloadModel::Flag(self.manual_state),
            },
            OutMessageModel {
                code: MessageCode::Reset,
                body: PayloadModel::Flag(self.reset_state),
            },
            OutMessageModel {
                code: MessageCode::Pltmn,
                body: PayloadModel::Flag(self.plotter_manual),
            },
            OutMessageModel { code: MessageCode::Xfer, body: PayloadModel::Glow(self.transfer_glow) },
            OutMessageModel { code: MessageCode::Ac, body: PayloadModel::Glow(self.air_cond_glow) },
            OutMessageModel { code: MessageCode::Error, body: PayloadModel::Glow(self.error_glow) },
            OutMessageModel { code: MessageCode::Tag, body: PayloadModel::Glow(self.tag_glow) },
            OutMessageModel {
                code: MessageCode::THold,
                body: PayloadModel::Glow(self.type_hold_glow),
            },
            OutMessageModel {
                code: MessageCode::BsPar,
                body: PayloadModel::Glow(self.bs_parity_glow),
            },
            OutMessageModel { code: MessageCode::Busy, body: PayloadModel::Glow(self.busy_ff.glow) },
            OutMessageModel {
                code: MessageCode::ARegister,
                body: PayloadModel::GlowSeq(self.a_reg.glow@),
            },
            OutMessageModel { code: MessageCode::EStat, body: PayloadModel::Empty },
        ]
    }

    /// Builds the telemetry messages of a full status snapshot.
    pub fn status_snapshot(&self) -> (out: Vec<OutMessage>)
        ensures
            msgs_view(out@) == self.status_out(),
    {
        let mut out: Vec<OutMessage> = Vec::new();
        out.push(OutMessage { code: MessageCode::Power, body: Payload::Flag(self.power_on) });
        out.push(OutMessage { code: MessageCode::NoPro, body: Payload::Flag(self.no_protn) });
        out.push(OutMessage { code: MessageCode::Manl, body: Payload::Flag(self.manual_state) });
        out.push(OutMessage { code: MessageCode::Reset, body: Payload::Flag(self.reset_state) });
        out.push(
            OutMessage { code: MessageCode::Pltmn, body: Payload::Flag(self.plotter_manual) },
        );
        out.push(OutMessage { code: MessageCode::Xfer, body: Payload::Glow(self.transfer_glow) });
        out.push(OutMessage { code: MessageCode::Ac, body: Payload::Glow(self.air_cond_glow) });
        out.push(OutMessage { code: MessageCode::Error, body: Payload::Glow(self.error_glow) });
        out.push(OutMessage { code: MessageCode::Tag, body: Payload::Glow(self.tag_glow) });
        out.push(
            OutMessage { code: MessageCode::THold, body: Payload::Glow(self.type_hold_glow) },
        );
        out.push(
            OutMessage { code: MessageCode::BsPar, body: Payload::Glow(self.bs_parity_glow) },
        );
        out.push(OutMessage { code: MessageCode::Busy, body: Payload::Glow(self.busy_ff.glow) });
        let mut a_glow: Vec<u32> = Vec::new();
        let reg_glow = self.a_reg.read_glow();
        let mut i: usize = 0;
        let n = reg_glow.len();
        while i < n
            invariant
                i <= n,
                n == reg_glow.len(),
                reg_glow@ == self.a_reg.glow@,
                a_glow@ == self.a_reg.glow@.subrange(0, i as int),
            decreases n - i,
        {
            a_glow.push(reg_glow[i]);
            i = i + 1;
            proof {
                assert(a_glow@ =~= self.a_reg.glow@.subrange(0, i as int));
            }
        }
        proof {
            assert(a_glow@ =~= self.a_reg.glow@);
        }
        out.push(OutMessage { code: MessageCode::ARegister, body: Payload::GlowVec(a_glow) });
        out.push(OutMessage { code: MessageCode::EStat, body: Payload::Empty });
        proof {
            assert(msgs_view(out@) =~= self.status_out());
        }
        out
    }

    /// The state change of one `STAT` poll: an armed reset countdown loses
    /// one poll, and `reset_state` self-clears when it reaches zero;
    /// nothing else moves.
    pub open spec fn stat_rel(pre: ServerState, post: ServerState) -> bool {
        &&& post == ServerState {
            reset_countdown: post.reset_countdown,
            reset_state: post.reset_state,
            ..pre
        }
        &&& post.reset_countdown == if pre.reset_countdown > 0 {
            (pre.reset_countdown - 1) as u32
        } else {
            0u32
        }
        &&& post.reset_state == if pre.reset_countdown == 1 {
            false
        } else {
            pre.reset_state
        }
    }

    /// The state change of a power transition to `on_off` (only taken when
    /// the power state actually flips): every toggle boolean clears, every
    /// lamp goes dark and is snapped to its bit value, the primary
    /// register is seeded or zeroed, and the clock leaps forward.
    pub open spec fn power_change_rel(pre: ServerState, post: ServerState, on_off: bool) -> bool {
        let seeded = ((pre.a_reg.value + POWER_SEED) as u64) & pre.a_reg.mask;
        &&& post.power_on == on_off
        &&& !post.manual_state
        &&& !post.plotter_manual
        &&& !post.no_protn
        &&& !post.reset_state
        &&& post.reset_countdown == pre.reset_countdown
        &&& post.transfer_glow == 0
        &&& post.air_cond_glow == 0
        &&& post.error_glow == 0
        &&& post.tag_glow == 0
        &&& post.type_hold_glow == 0
        &&& post.bs_parity_glow == 0
        &&& post.eclock.ticks == sat_add(pre.eclock.ticks, POWER_CLOCK_LEAP)
        &&& !post.busy_ff.value
        &&& post.busy_ff.glow == 0
        &&& post.busy_ff.last_tick == post.eclock.ticks
        &&& post.a_reg.bits == pre.a_reg.bits
        &&& post.a_reg.mask == pre.a_reg.mask
        &&& post.a_reg.power_mask == pre.a_reg.power_mask
        &&& post.a_reg.sign_mask == pre.a_reg.sign_mask
        &&& post.a_reg.value == if on_off {
            seeded
        } else {
            0u64
        }
        &&& post.a_reg.overflow == (pre.a_reg.overflow || (on_off && signed_add_overflows(
            pre.a_reg.value,
            POWER_SEED,
            (pre.a_reg.value + POWER_SEED) as u64,
            pre.a_reg.sign_mask,
        )))
        &&& post.a_reg.last_tick == post.eclock.ticks
        &&& post.a_reg.glow.len() == pre.a_reg.glow.len()
        &&& forall|i: int|
            0 <= i < post.a_reg.glow.len() ==> post.a_reg.glow[i] == if bit_is_set(
                post.a_reg.value,
                i as u64,
            ) {
                GLOW_SCALE
            } else {
                0u32
            }
    }

    /// Applies a power transition, as the `POWER` message does.  When the
    /// requested state differs from the current one, the state is reset as
    /// [`ServerState::power_change_rel`] says and a full status snapshot
    /// is pushed immediately; otherwise nothing happens.
    pub fn change_power(&mut self, on_off: bool) -> (out: Vec<OutMessage>)
        requires
            old(self).wf(),
        ensures
            final(self).wf(),
            old(self).power_on == on_off ==> *final(self) == *old(self) && out@.len() == 0,
            old(self).power_on != on_off ==> ServerState::power_change_rel(
                *old(self),
                *final(self),
                on_off,
            ) && msgs_view(out@) == final(self).status_out(),
    {
        if self.power_on != on_off {
            self.power_on = on_off;
            self.manual_state = false;
            self.plotter_manual = false;
            self.no_protn = false;
            self.reset_state = false;
            self.transfer_glow = 0;
            self.air_cond_glow = 0;
            self.error_glow = 0;
            self.tag_glow = 0;
            self.type_hold_glow = 0;
            self.bs_parity_glow = 0;
            let now = self.eclock.read();
            self.busy_ff.set(false, now);
            if on_off {
                proof {
                    lemma_a_register_masks();
                }
                self.a_reg.add(POWER_SEED, now);
            } else {
                self.a_reg.set(0, now);
                proof {
                    let m = old(self).a_reg.mask;
                    assert(0u64 & m == 0u64) by (bit_vector);
                }
            }
            self.eclock.advance(POWER_CLOCK_LEAP);
            let now2 = self.eclock.read();
            let ghost mid = *self;
            self.a_reg.update_glow(now2, GLOW_SCALE);
            self.busy_ff.update_glow(now2, GLOW_SCALE);
            proof {
                lemma_glow_snap(
                    elapsed_ticks(now2, mid.busy_ff.last_tick),
                    mid.busy_ff.glow as int,
                    mid.busy_ff.value,
                );
                assert forall|i: int| 0 <= i < self.a_reg.glow.len() implies self.a_reg.glow[i]
                    == (if bit_is_set(self.a_reg.value, i as u64) {
                    GLOW_SCALE
                } else {
                    0u32
                }) by {
                    lemma_glow_snap(
                        elapsed_ticks(now2, mid.a_reg.last_tick),
                        mid.a_reg.glow[i] as int,
                        bit_is_set(mid.a_reg.value, i as u64),
                    );
                }
            }
            self.status_snapshot()
        } else {
            Vec::new()
        }
    }

    /// Applies one inbound message to the shared state and says what to
    /// send back and whether this connection's loop continues:
    ///
    /// * `STAT` ages an armed reset countdown and pushes a full snapshot;
    /// * `CLEAR` zeroes the primary register;
    /// * `RESET` arms the self-expiring reset state for [`RESET_POLLS`]
    ///   polls;
    /// * `MANL`, `PLTMN` and `NOPRO` set their toggle from the boolean
    ///   payload;
    /// * `POWER` applies a power transition and pushes a snapshot on a
    ///   real flip;
    /// * `SHUT` ends the connection's loop;
    /// * `INIT`, every other known code and any unknown code are ignored.
    ///
    /// A boolean payload that fails to parse is an error: the state is
    /// left untouched and the connection is torn down.
    pub fn handle_message(&mut self, code: &Vec<u8>, payload: &Vec<u8>) -> (r: Result<
        ServerReply,
        DispatchError,
    >)
        requires
            old(self).wf(),
        ensures
            final(self).wf(),
            match code_of_spec(code@) {
                Some(MessageCode::Stat) => r matches Ok(rep) && rep.flow is Continue
                    && ServerState::stat_rel(*old(self), *final(self)) && msgs_view(rep.out@)
                    == final(self).status_out(),
                Some(MessageCode::Clear) => r matches Ok(rep) && rep.flow is Continue
                    && rep.out@.len() == 0 && ServerState::clear_rel(*old(self), *final(self)),
                Some(MessageCode::Reset) => r matches Ok(rep) && rep.flow is Continue
                    && rep.out@.len() == 0 && *final(self) == (ServerState {
                    reset_state: true,
                    reset_countdown: RESET_POLLS,
                    ..*old(self)
                }),
                Some(MessageCode::Manl) => match flag_parsed(payload@) {
                    Some(v) => r matches Ok(rep) && rep.flow is Continue && rep.out@.len() == 0
                        && *final(self) == (ServerState { manual_state: v, ..*old(self) }),
                    None => r matches Err(e) && e is BadPayload && *final(self) == *old(self),
                },
                Some(MessageCode::Pltmn) => match flag_parsed(payload@) {
                    Some(v) => r matches Ok(rep) && rep.flow is Continue && rep.out@.len() == 0
                        && *final(self) == (ServerState { plotter_manual: v, ..*old(self) }),
                    None => r matches Err(e) && e is BadPayload && *final(self) == *old(self),
                },
                Some(MessageCode::NoPro) => match flag_parsed(payload@) {
                    Some(v) => r matches Ok(rep) && rep.flow is Continue && rep.out@.len() == 0
                        && *final(self) == (ServerState { no_protn: v, ..*old(self) }),
                    None => r matches Err(e) && e is BadPayload && *final(self) == *old(self),
                },
                Some(MessageCode::Power) => match flag_parsed(payload@) {
                    Some(v) => r matches Ok(rep) && rep.flow is Continue && (if old(self).power_on == v {
                        *final(self) == *old(self) && rep.out@.len() == 0
                    } else {
                        ServerState::power_change_rel(*old(self), *final(self), v) && msgs_view(
                            rep.out@,
                        ) == final(self).status_out()
                    }),
                    None => r matches Err(e) && e is BadPayload && *final(self) == *old(self),
                },
                Some(MessageCode::Shut) => r matches Ok(rep) && rep.flow is Shut && rep.out@.len()
                    == 0 && *final(self) == *old(self),
                _ => r matches Ok(rep) && rep.flow is Continue && rep.out@.len() == 0 && *final(self) == *old(self),
            },
    {
        match parse_code(code) {
            Some(MessageCode::Stat) => {
                if self.reset_countdown > 0 {
                    self.reset_countdown = self.reset_countdown - 1;
                    if self.reset_countdown == 0 {
                        self.reset_state = false;
                    }
                }
                let out = self.status_snapshot();
                Ok(ServerReply { out, flow: ServerFlow::Continue })
            },
            Some(MessageCode::Clear) => {
                let now = self.eclock.read();
                self.a_reg.set(0, now);
                proof {
                    let m = old(self).a_reg.mask;
                    assert(0u64 & m == 0u64) by (bit_vector);
                }
                Ok(ServerReply { out: Vec::new(), flow: ServerFlow::Continue })
            },
            Some(MessageCode::Reset) => {
                self.reset_state = true;
                self.reset_countdown = RESET_POLLS;
                Ok(ServerReply { out: Vec::new(), flow: ServerFlow::Continue })
            },
            Some(MessageCode::Manl) => {
                match parse_flag_payload(payload) {
                    Some(v) => {
                        self.manual_state = v;
                        Ok(ServerReply { out: Vec::new(), flow: ServerFlow::Continue })
                    },
                    None => Err(DispatchError::BadPayload),
                }
            },
            Some(MessageCode::Pltmn) => {
                match parse_flag_payload(payload) {
                    Some(v) => {
                        self.plotter_manual = v;
                        Ok(ServerReply { out: Vec::new(), flow: ServerFlow::Continue })
                    },
                    None => Err(DispatchError::BadPayload),
                }
            },
            Some(MessageCode::NoPro) => {
                match parse_flag_payload(payload) {
                    Some(v) => {
                        self.no_protn = v;
                        Ok(ServerReply { out: Vec::new(), flow: ServerFlow::Continue })
                    },
                    None => Err(DispatchError::BadPayload),
                }
            },
            Some(MessageCode::Power) => {
                match parse_flag_payload(payload) {
                    Some(v) => {
                        let out = self.change_power(v);
                        Ok(ServerReply { out, flow: ServerFlow::Continue })
                    },
                    None => Err(DispatchError::BadPayload),
                }
            },
            Some(MessageCode::Shut) => Ok(
                ServerReply { out: Vec::new(), flow: ServerFlow::Shut },
            ),
            _ => Ok(ServerReply { out: Vec::new(), flow: ServerFlow::Continue }),
        }
    }

    /// Whether the `k`-th increment from `v0` lands on the value just
    /// below the sign bit, which is where adding one flips the sign and
    /// sets the advisory overflow flag.
    pub open spec fn sign_boundary(v0: u64, k: int) -> bool {
        (v0 + k) % (A_REGISTER_MODULUS as int) == A_REGISTER_SIGN - 1
    }

    /// One wake of the background tick loop.  While power is on, it
    /// applies `n` increments to the primary register, after each one
    /// latching the busy flip-flop to the parity of the value the
    /// increment replaced, and advances the shared clock by one timer
    /// period per increment.  While power is off it does nothing, and the
    /// caller sleeps coarsely.  Returns whether a batch ran.
    pub fn tick_batch(&mut self, n: usize) -> (ran: bool)
        requires
            old(self).wf(),
        ensures
            final(self).wf(),
            ran == old(self).power_on,
            !old(self).power_on ==> *final(self) == *old(self),
            n == 0 ==> *final(self) == *old(self),
            old(self).power_on ==> {
                let pre = *old(self);
                let post = *final(self);
                &&& post.reset_countdown == pre.reset_countdown
                &&& post.power_on == pre.power_on
                &&& post.no_protn == pre.no_protn
                &&& post.plotter_manual == pre.plotter_manual
                &&& post.manual_state == pre.manual_state
                &&& post.reset_state == pre.reset_state
                &&& post.transfer_glow == pre.transfer_glow
                &&& post.air_cond_glow == pre.air_cond_glow
                &&& post.error_glow == pre.error_glow
                &&& post.tag_glow == pre.tag_glow
                &&& post.type_hold_glow == pre.type_hold_glow
                &&& post.bs_parity_glow == pre.bs_parity_glow
                &&& post.a_reg.bits == pre.a_reg.bits
                &&& post.a_reg.mask == pre.a_reg.mask
                &&& post.a_reg.power_mask == pre.a_reg.power_mask
                &&& post.a_reg.sign_mask == pre.a_reg.sign_mask
                &&& post.a_reg.value == (pre.a_reg.value + n) % (A_REGISTER_MODULUS as int)
                &&& post.a_reg.overflow == (pre.a_reg.overflow || exists|k: int|
                    0 <= k < n && #[trigger] ServerState::sign_boundary(pre.a_reg.value, k))
                &&& post.eclock.ticks == sat_ticks(
                    pre.eclock.ticks + n * (TIMER_PERIOD as int),
                )
                &&& n > 0 ==> post.busy_ff.value == ((pre.a_reg.value + n - 1) % (
                A_REGISTER_MODULUS as int) % 2 == 0)
            },
    {
        if !self.power_on {
            return false;
        }
        let ghost pre = *old(self);
        let ghost v0 = pre.a_reg.value;
        let ghost modulus = A_REGISTER_MODULUS as int;
        proof {
            lemma_a_register_masks();
            lemma_tick_step(self.a_reg.value);
            vstd::arithmetic::div_mod::lemma_small_mod(v0 as nat, A_REGISTER_MODULUS as nat);
        }
        let mut i: usize = 0;
        while i < n
            invariant
                i <= n,
                self.wf(),
                self.reset_countdown == pre.reset_countdown,
                self.power_on == pre.power_on,
                self.no_protn == pre.no_protn,
                self.plotter_manual == pre.plotter_manual,
                self.manual_state == pre.manual_state,
                self.reset_state == pre.reset_state,
                self.transfer_glow == pre.transfer_glow,
                self.air_cond_glow == pre.air_cond_glow,
                self.error_glow == pre.error_glow,
                self.tag_glow == pre.tag_glow,
                self.type_hold_glow == pre.type_hold_glow,
                self.bs_parity_glow == pre.bs_parity_glow,
                self.a_reg.bits == pre.a_reg.bits,
                self.a_reg.mask == pre.a_reg.mask,
                self.a_reg.power_mask == pre.a_reg.power_mask,
                self.a_reg.sign_mask == pre.a_reg.sign_mask,
                self.a_reg.value == (v0 + i) % modulus,
                self.a_reg.overflow == (pre.a_reg.overflow || exists|k: int|
                    0 <= k < i && #[trigger] ServerState::sign_boundary(v0, k)),
                self.eclock.ticks == sat_ticks(pre.eclock.ticks + i * (TIMER_PERIOD as int)),
                i > 0 ==> self.busy_ff.value == ((v0 + i - 1) % modulus % 2 == 0),
                i == 0 ==> self.busy_ff == pre.busy_ff,
                i == 0 ==> self.a_reg == pre.a_reg && self.eclock == pre.eclock,
            decreases n - i,
        {
            proof {
                lemma_a_register_masks();
                lemma_tick_step(self.a_reg.value);
            }
            let now = self.eclock.read();
            let count = self.a_reg.read();
            self.a_reg.add(1, now);
            self.busy_ff.set(count & 1 == 0, now);
            self.eclock.advance(TIMER_PERIOD);
            i = i + 1;
            proof {
                vstd::arithmetic::div_mod::lemma_add_mod_noop(v0 + i - 1, 1, modulus);
                assert(self.a_reg.value == (v0 + i) % modulus);
                if ServerState::sign_boundary(v0, i - 1) {
                    assert(exists|k: int|
                        0 <= k < i && #[trigger] ServerState::sign_boundary(v0, k));
                }
                assert(self.eclock.ticks == sat_ticks(
                    pre.eclock.ticks + i * (TIMER_PERIOD as int),
                )) by {
                    assert(i * (TIMER_PERIOD as int) == (i - 1) * (TIMER_PERIOD as int)
                        + TIMER_PERIOD);
                }
            }
        }
        true
    }

    /// The state change of a `CLEAR`: the primary register is set to zero
    /// (with the usual glow update at the current tick); nothing else
    /// moves.
    pub open spec fn clear_rel(pre: ServerState, post: ServerState) -> bool {
        &&& post == ServerState { a_reg: post.a_reg, ..pre }
        &&& post.a_reg == Register {
            value: 0u64,
            last_tick: pre.eclock.ticks,
            glow: post.a_reg.glow,
            ..pre.a_reg
        }
        &&& glow_updated(
            pre.a_reg.glow@,
            post.a_reg.glow@,
            0,
            glow_alpha(elapsed_ticks(pre.eclock.ticks, pre.a_reg.last_tick), 0),
        )
    }
}

} // verus!

