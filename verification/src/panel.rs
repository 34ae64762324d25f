//! Client-side panel mirror and dispatch.
//!
//! A panel client mirrors the server's toggle booleans and lamp
//! intensities and issues control events.  [`PanelState::apply_message`]
//! applies one inbound telemetry message to the mirror;
//! [`PanelState::status_poll`] paces the periodic `STAT` requests.  The
//! mirror is written only by the receive path and read only by the render
//! path, which consumes the plain glow values computed here.

use vstd::prelude::*;
use crate::clock::sat_add;
use crate::glow::GLOW_SCALE;
use crate::message::{code_of_spec, parse_code, MessageCode, Payload, PayloadModel};
use crate::server::DispatchError;

verus! {

/// Ticks between two periodic status requests (1/20 of a second).
pub const STATUS_PERIOD: u64 = 150_000_000;

/// How the client's receive loop goes on after a message.
#[derive(Clone, Copy, PartialEq, Eq, Structural, Debug)]
pub enum ClientFlow {
    /// Keep receiving.
    Continue,
    /// The server ended the session: stop the loops and surface a
    /// disconnected state to the render layer.
    Disconnect,
    /// The server probed this connection's identity with a `WRU`; answer
    /// with an identifying event or be dropped.
    Identify,
}

/// Whether every intensity of a register glow sequence is within the
/// glow scale.
pub open spec fn glow_seq_in_scale(g: Seq<u32>) -> bool {
    forall|i: int| 0 <= i < g.len() ==> g[i] <= GLOW_SCALE
}

/// The client's mirror of the server state, plus the bookkeeping that
/// paces status polls.
pub struct PanelState {
    /// Render-clock ticks at the last poll check.
    pub clock: u64,
    /// Render-clock tick after which the next `STAT` request is due.
    pub next_status_clock: u64,
    /// Snapshots requested and not yet answered by an `ESTAT`; polling
    /// pauses while more than two are outstanding.
    pub status_request_count: u32,
    /// Mirror of the server's power toggle.
    pub power_on: bool,
    /// Mirror of the server's no-protection toggle.
    pub no_protn: bool,
    /// Mirror of the server's plotter-manual toggle.
    pub plotter_manual: bool,
    /// Mirror of the server's manual toggle.
    pub manual_state: bool,
    /// Mirror of the server's self-expiring reset toggle.
    pub reset_state: bool,
    /// Busy lamp intensity.
    pub busy_glow: u32,
    /// Transfer lamp intensity.
    pub transfer_glow: u32,
    /// Air-condition lamp intensity.
    pub air_cond_glow: u32,
    /// Error lamp intensity.
    pub error_glow: u32,
    /// Tag lamp intensity.
    pub tag_glow: u32,
    /// Type-hold lamp intensity.
    pub type_hold_glow: u32,
    /// Backing-store parity lamp intensity.
    pub bs_parity_glow: u32,
    /// Primary register glow, one intensity per bit.
    pub a_glow: Vec<u32>,
}

impl PanelState {
    /// Well-formedness: every mirrored intensity is within the glow scale.
    pub open spec fn wf(&self) -> bool {
        &&& self.busy_glow <= GLOW_SCALE
        &&& self.transfer_glow <= GLOW_SCALE
        &&& self.air_cond_glow <= GLOW_SCALE
        &&& self.error_glow <= GLOW_SCALE
        &&& self.tag_glow <= GLOW_SCALE
        &&& self.type_hold_glow <= GLOW_SCALE
        &&& self.bs_parity_glow <= GLOW_SCALE
        &&& glow_seq_in_scale(self.a_glow@)
    }

    /// A dark, powered-off mirror with one register lamp placeholder,
    /// exactly as a panel looks before the first snapshot arrives.
    pub fn new() -> (s: PanelState)
        ensures
            s.wf(),
            s.clock == 0,
            s.next_status_clock == 0,
            s.status_request_count == 0,
            !s.power_on,
            !s.no_protn,
            !s.plotter_manual,
            !s.manual_state,
            !s.reset_state,
            s.busy_glow == 0,
            s.transfer_glow == 0,
            s.air_cond_glow == 0,
            s.error_glow == 0,
            s.tag_glow == 0,
            s.type_hold_glow == 0,
            s.bs_parity_glow == 0,
            s.a_glow@ == seq![0u32],
    {
        let mut a_glow: Vec<u32> = Vec::new();
        a_glow.push(0);
        proof {
            assert(a_glow@ =~= seq![0u32]);
        }
        PanelState {
            clock: 0,
            next_status_clock: 0,
            status_request_count: 0,
            power_on: false,
            no_protn: false,
            plotter_manual: false,
            manual_state: false,
            reset_state: false,
            busy_glow: 0,
            transfer_glow: 0,
            air_cond_glow: 0,
            error_glow: 0,
            tag_glow: 0,
            type_hold_glow: 0,
            bs_parity_glow: 0,
            a_glow,
        }
    }

    /// Copies a received register glow if every intensity is within the
    /// glow scale; rejects it otherwise.
    fn checked_glow_copy(v: &Vec<u32>) -> (r: Option<Vec<u32>>)
        ensures
            match r {
                Some(c) => c@ == v@ && glow_seq_in_scale(v@),
                None => !glow_seq_in_scale(v@),
            },
    {
        let n = v.len();
        let mut c: Vec<u32> = Vec::new();
        let mut i: usize = 0;
        while i < n
            invariant
                i <= n,
                n == v.len(),
                c@ == v@.subrange(0, i as int),
                forall|j: int| 0 <= j < i ==> v@[j] <= GLOW_SCALE,
            decreases n - i,
        {
            if v[i] > GLOW_SCALE {
                return None;
            }
            c.push(v[i]);
            i = i + 1;
            proof {
                assert(c@ =~= v@.subrange(0, i as int));
            }
        }
        proof {
            assert(c@ =~= v@);
        }
        Some(c)
    }

    /// Applies one inbound telemetry message to the mirror:
    ///
    /// * the toggle codes (`POWER`, `NOPRO`, `MANL`, `PLTMN`, `RESET`)
    ///   copy their boolean into the mirrored toggle, and a rising power
    ///   edge restarts the status polling immediately;
    /// * the lamp codes copy their intensity, and `A` the whole register
    ///   glow;
    /// * `ESTAT` closes one outstanding snapshot request;
    /// * `KILL` clears the power mirror and disconnects; `SHUT`
    ///   disconnects;
    /// * `WRU` asks the receive loop to send the identifying reply;
    /// * every other known code and any unknown code is ignored.
    ///
    /// A payload of the wrong shape for a known code, or an intensity out
    /// of scale, is an error: the mirror is left untouched, so corrupt
    /// telemetry can never leave it ill-formed.
    #[verifier::rlimit(100)]
    #[verifier::spinoff_prover]
    pub fn apply_message(&mut self, code: &Vec<u8>, body: &Payload) -> (r: Result<
        ClientFlow,
        DispatchError,
    >)
        requires
            old(self).wf(),
        ensures
            final(self).wf(),
            code_of_spec(code@) == Some(MessageCode::ARegister) ==> Self::a_glow_applied(
                *old(self),
                *final(self),
                r,
                body@,
            ),
            code_of_spec(code@) == Some(MessageCode::Busy) ==> Self::glow_applied(
                *old(self),
                *final(self),
                r,
                body@,
                PanelState { busy_glow: final(self).busy_glow, ..*old(self) },
                final(self).busy_glow,
            ),
            code_of_spec(code@) == Some(MessageCode::Xfer) ==> Self::glow_applied(
                *old(self),
                *final(self),
                r,
                body@,
                PanelState { transfer_glow: final(self).transfer_glow, ..*old(self) },
                final(self).transfer_glow,
            ),
            code_of_spec(code@) == Some(MessageCode::Ac) ==> Self::glow_applied(
                *old(self),
                *final(self),
                r,
                body@,
                PanelState { air_cond_glow: final(self).air_cond_glow, ..*old(self) },
                final(self).air_cond_glow,
            ),
            code_of_spec(code@) == Some(MessageCode::Error) ==> Self::glow_applied(
                *old(self),
                *final(self),
                r,
                body@,
                PanelState { error_glow: final(self).error_glow, ..*old(self) },
                final(self).error_glow,
            ),
            code_of_spec(code@) == Some(MessageCode::Tag) ==> Self::glow_applied(
                *old(self),
                *final(self),
                r,
                body@,
                PanelState { tag_glow: final(self).tag_glow, ..*old(self) },
                final(self).tag_glow,
            ),
            code_of_spec(code@) == Some(MessageCode::THold) ==> Self::glow_applied(
                *old(self),
                *final(self),
                r,
                body@,
                PanelState { type_hold_glow: final(self).type_hold_glow, ..*old(self) },
                final(self).type_hold_glow,
            ),
            code_of_spec(code@) == Some(MessageCode::BsPar) ==> Self::glow_applied(
                *old(self),
                *final(self),
                r,
                body@,
                PanelState { bs_parity_glow: final(self).bs_parity_glow, ..*old(self) },
                final(self).bs_parity_glow,
            ),
            code_of_spec(code@) == Some(MessageCode::NoPro) ==> Self::flag_applied(
                *old(self),
                *final(self),
                r,
                body@,
                PanelState { no_protn: final(self).no_protn, ..*old(self) },
                final(self).no_protn,
            ),
            code_of_spec(code@) == Some(MessageCode::Manl) ==> Self::flag_applied(
                *old(self),
                *final(self),
                r,
                body@,
                PanelState { manual_state: final(self).manual_state, ..*old(self) },
                final(self).manual_state,
            ),
            code_of_spec(code@) == Some(MessageCode::Pltmn) ==> Self::flag_applied(
                *old(self),
                *final(self),
                r,
                body@,
                PanelState { plotter_manual: final(self).plotter_manual, ..*old(self) },
                final(self).plotter_manual,
            ),
            code_of_spec(code@) == Some(MessageCode::Reset) ==> Self::flag_applied(
                *old(self),
                *final(self),
                r,
                body@,
                PanelState { reset_state: final(self).reset_state, ..*old(self) },
                final(self).reset_state,
            ),
            code_of_spec(code@) == Some(MessageCode::Power) ==> match body@ {
                PayloadModel::Flag(v) => r matches Ok(f) && f is Continue && *final(self)
                    == (PanelState {
                    power_on: v,
                    status_request_count: if v && !old(self).power_on {
                        0u32
                    } else {
                        old(self).status_request_count
                    },
                    next_status_clock: if v && !old(self).power_on {
                        old(self).clock
                    } else {
                        old(self).next_status_clock
                    },
                    ..*old(self)
                }),
                _ => r matches Err(e) && e is BadPayload && *final(self) == *old(self),
            },
            code_of_spec(code@) == Some(MessageCode::EStat) ==> (r matches Ok(f) && f is Continue
                && *final(self) == (PanelState {
                status_request_count: if old(self).status_request_count > 0 {
                    (old(self).status_request_count - 1) as u32
                } else {
                    0u32
                },
                ..*old(self)
            })),
            code_of_spec(code@) == Some(MessageCode::Kill) ==> (r matches Ok(f) && f is Disconnect
                && *final(self) == (PanelState { power_on: false, ..*old(self) })),
            code_of_spec(code@) == Some(MessageCode::Shut) ==> (r matches Ok(f) && f is Disconnect
                && *final(self) == *old(self)),
            code_of_spec(code@) == Some(MessageCode::Wru) ==> (r matches Ok(f) && f is Identify
                && *final(self) == *old(self)),
            code_of_spec(code@) is None ==> (r matches Ok(f) && f is Continue && *final(self)
                == *old(self)),
            (code_of_spec(code@) matches Some(c) && (c is Stat || c is Clear || c is Init
                || c is Iam)) ==> (r matches Ok(f) && f is Continue && *final(self)
                == *old(self)),
    {
        match parse_code(code) {
            Some(MessageCode::ARegister) => {
                match body {
                    Payload::GlowVec(g) => {
                        match Self::checked_glow_copy(g) {
                            Some(c) => {
                                self.a_glow = c;
                                proof {
                                    assert(self.a_glow@ =~= g@);
                                }
                                Ok(ClientFlow::Continue)
                            },
                            None => Err(DispatchError::BadPayload),
                        }
                    },
                    _ => Err(DispatchError::BadPayload),
                }
            },
            Some(MessageCode::Busy) => {
                match body {
                    Payload::Glow(g) => {
                        if *g <= GLOW_SCALE {
                            self.busy_glow = *g;
                            Ok(ClientFlow::Continue)
                        } else {
                            Err(DispatchError::BadPayload)
                        }
                    },
                    _ => Err(DispatchError::BadPayload),
                }
            },
            Some(MessageCode::Xfer) => {
                match body {
                    Payload::Glow(g) => {
                        if *g <= GLOW_SCALE {
                            self.transfer_glow = *g;
                            Ok(ClientFlow::Continue)
                        } else {
                            Err(DispatchError::BadPayload)
                        }
                    },
                    _ => Err(DispatchError::BadPayload),
                }
            },
            Some(MessageCode::Ac) => {
                match body {
                    Payload::Glow(g) => {
                        if *g <= GLOW_SCALE {
                            self.air_cond_glow = *g;
                            Ok(ClientFlow::Continue)
                        } else {
                            Err(DispatchError::BadPayload)
                        }
                    },
                    _ => Err(DispatchError::BadPayload),
                }
            },
            Some(MessageCode::Error) => {
                match body {
                    Payload::Glow(g) => {
                        if *g <= GLOW_SCALE {
                            self.error_glow = *g;
                            Ok(ClientFlow::Continue)
                        } else {
                            Err(DispatchError::BadPayload)
                        }
                    },
                    _ => Err(DispatchError::BadPayload),
                }
            },
            Some(MessageCode::Tag) => {
                match body {
                    Payload::Glow(g) => {
                        if *g <= GLOW_SCALE {
                            self.tag_glow = *g;
                            Ok(ClientFlow::Continue)
                        } else {
                            Err(DispatchError::BadPayload)
                        }
                    },
                    _ => Err(DispatchError::BadPayload),
                }
            },
            Some(MessageCode::THold) => {
                match body {
                    Payload::Glow(g) => {
                        if *g <= GLOW_SCALE {
                            self.type_hold_glow = *g;
                            Ok(ClientFlow::Continue)
                        } else {
                            Err(DispatchError::BadPayload)
                        }
                    },
                    _ => Err(DispatchError::BadPayload),
                }
            },
            Some(MessageCode::BsPar) => {
                match body {
                    Payload::Glow(g) => {
                        if *g <= GLOW_SCALE {
                            self.bs_parity_glow = *g;
                            Ok(ClientFlow::Continue)
                        } else {
                            Err(DispatchError::BadPayload)
                        }
                    },
                    _ => Err(DispatchError::BadPayload),
                }
            },
            Some(MessageCode::NoPro) => {
                match body {
                    Payload::Flag(v) => {
                        self.no_protn = *v;
                        Ok(ClientFlow::Continue)
                    },
                    _ => Err(DispatchError::BadPayload),
                }
            },
            Some(MessageCode::Manl) => {
                match body {
                    Payload::Flag(v) => {
                        self.manual_state = *v;
                        Ok(ClientFlow::Continue)
                    },
                    _ => Err(DispatchError::BadPayload),
                }
            },
            Some(MessageCode::Pltmn) => {
                match body {
                    Payload::Flag(v) => {
                        self.plotter_manual = *v;
                        Ok(ClientFlow::Continue)
                    },
                    _ => Err(DispatchError::BadPayload),
                }
            },
            Some(MessageCode::Reset) => {
                match body {
                    Payload::Flag(v) => {
                        self.reset_state = *v;
                        Ok(ClientFlow::Continue)
                    },
                    _ => Err(DispatchError::BadPayload),
                }
            },
            Some(MessageCode::Power) => {
                match body {
                    Payload::Flag(v) => {
                        let rising = *v && !self.power_on;
                        self.power_on = *v;
                        if rising {
                            self.status_request_count = 0;
                            self.next_status_clock = self.clock;
                        }
                        Ok(ClientFlow::Continue)
                    },
                    _ => Err(DispatchError::BadPayload),
                }
            },
            Some(MessageCode::EStat) => {
                if self.status_request_count > 0 {
                    self.status_request_count = self.status_request_count - 1;
                }
                Ok(ClientFlow::Continue)
            },
            Some(MessageCode::Kill) => {
                self.power_on = false;
                Ok(ClientFlow::Disconnect)
            },
            Some(MessageCode::Shut) => Ok(ClientFlow::Disconnect),
            Some(MessageCode::Wru) => Ok(ClientFlow::Identify),
            _ => Ok(ClientFlow::Continue),
        }
    }

    /// How the register-glow message lands: a full in-scale intensity
    /// sequence replaces the mirrored register glow; anything else changes
    /// nothing and errors.
    pub open spec fn a_glow_applied(
        pre: PanelState,
        post: PanelState,
        r: Result<ClientFlow, DispatchError>,
        body: PayloadModel,
    ) -> bool {
        match body {
            PayloadModel::GlowSeq(g) => if glow_seq_in_scale(g) {
                r matches Ok(f) && f is Continue && post.a_glow@ == g && post == (PanelState {
                    a_glow: post.a_glow,
                    ..pre
                })
            } else {
                r matches Err(e) && e is BadPayload && post == pre
            },
            _ => r matches Err(e) && e is BadPayload && post == pre,
        }
    }

    /// How one lamp-intensity message lands: within scale it replaces the
    /// one mirrored intensity (`post`, whose new field value is `got`),
    /// out of scale or of the wrong shape it changes nothing and errors.
    pub open spec fn glow_applied(
        pre: PanelState,
        post: PanelState,
        r: Result<ClientFlow, DispatchError>,
        body: PayloadModel,
        expected: PanelState,
        got: u32,
    ) -> bool {
        match body {
            PayloadModel::Glow(g) => if g <= GLOW_SCALE {
                r matches Ok(f) && f is Continue && got == g && post == expected
            } else {
                r matches Err(e) && e is BadPayload && post == pre
            },
            _ => r matches Err(e) && e is BadPayload && post == pre,
        }
    }

    /// How one toggle message lands: a boolean payload replaces the one
    /// mirrored toggle (`post`, whose new field value is `got`); any other
    /// shape changes nothing and errors.
    pub open spec fn flag_applied(
        pre: PanelState,
        post: PanelState,
        r: Result<ClientFlow, DispatchError>,
        body: PayloadModel,
        expected: PanelState,
        got: bool,
    ) -> bool {
        match body {
            PayloadModel::Flag(v) => r matches Ok(f) && f is Continue && got == v && post
                == expected,
            _ => r matches Err(e) && e is BadPayload && post == pre,
        }
    }

    /// One render-frame check of the status pacing: records the render
    /// clock and says whether a `STAT` request is due now — power must be
    /// on, the period must have elapsed, and no more than two snapshots
    /// may be outstanding.  When one is due, the next is scheduled a full
    /// period later.
    pub fn status_poll(&mut self, now: u64) -> (send: bool)
        requires
            old(self).wf(),
        ensures
            final(self).wf(),
            send == (old(self).power_on && old(self).next_status_clock < now && old(self).status_request_count <= 2),
            send ==> *final(self) == (PanelState {
                clock: now,
                next_status_clock: sat_add(now, STATUS_PERIOD),
                ..*old(self)
            }),
            !send ==> *final(self) == (PanelState { clock: now, ..*old(self) }),
    {
        self.clock = now;
        if self.power_on && self.next_status_clock < now && self.status_request_count <= 2 {
            if u64::MAX - now >= STATUS_PERIOD {
                self.next_status_clock = now + STATUS_PERIOD;
            } else {
                self.next_status_clock = u64::MAX;
            }
            true
        } else {
            false
        }
    }
}

} // verus!
