//! Tests of the client mirror: telemetry application, status-poll pacing
//! and the event-to-message mapping.

use frontpanel::event::{event_message, wru_reply_accepted, Event};
use frontpanel::message::{
    code_bytes, parse_code, payload_kind, MessageCode, Payload, PayloadKind,
};
use frontpanel::glow::GLOW_SCALE;
use frontpanel::panel::{ClientFlow, PanelState, STATUS_PERIOD};
use frontpanel::server::DispatchError;

fn apply(state: &mut PanelState, code: &[u8], body: Payload) -> Result<ClientFlow, DispatchError> {
    state.apply_message(&code.to_vec(), &body)
}

#[test]
fn mirror_starts_dark_and_powered_off() {
    let s = PanelState::new();
    assert!(!s.power_on);
    assert_eq!(s.busy_glow, 0);
    assert_eq!(s.a_glow, vec![0]);
    assert_eq!(s.status_request_count, 0);
}

#[test]
fn toggles_mirror_their_payload() {
    let mut s = PanelState::new();
    apply(&mut s, b"NOPRO", Payload::Flag(true)).unwrap();
    assert!(s.no_protn);
    apply(&mut s, b"MANL", Payload::Flag(true)).unwrap();
    assert!(s.manual_state);
    apply(&mut s, b"PLTMN", Payload::Flag(true)).unwrap();
    assert!(s.plotter_manual);
    apply(&mut s, b"RESET", Payload::Flag(true)).unwrap();
    assert!(s.reset_state);
    apply(&mut s, b"RESET", Payload::Flag(false)).unwrap();
    assert!(!s.reset_state);
}

#[test]
fn lamp_intensities_mirror_their_payload() {
    let mut s = PanelState::new();
    apply(&mut s, b"BUSY", Payload::Glow(123)).unwrap();
    assert_eq!(s.busy_glow, 123);
    apply(&mut s, b"XFER", Payload::Glow(GLOW_SCALE)).unwrap();
    assert_eq!(s.transfer_glow, GLOW_SCALE);
    apply(&mut s, b"AC", Payload::Glow(1)).unwrap();
    assert_eq!(s.air_cond_glow, 1);
    apply(&mut s, b"ERROR", Payload::Glow(2)).unwrap();
    assert_eq!(s.error_glow, 2);
    apply(&mut s, b"TAG", Payload::Glow(3)).unwrap();
    assert_eq!(s.tag_glow, 3);
    apply(&mut s, b"THOLD", Payload::Glow(4)).unwrap();
    assert_eq!(s.type_hold_glow, 4);
    apply(&mut s, b"BSPAR", Payload::Glow(5)).unwrap();
    assert_eq!(s.bs_parity_glow, 5);
}

#[test]
fn register_glow_replaces_the_whole_vector() {
    let mut s = PanelState::new();
    let glow = vec![0u32, GLOW_SCALE, 9, 0];
    apply(&mut s, b"A", Payload::GlowVec(glow.clone())).unwrap();
    assert_eq!(s.a_glow, glow);
}

#[test]
fn out_of_scale_intensity_is_rejected_without_state_change() {
    let mut s = PanelState::new();
    assert!(matches!(
        apply(&mut s, b"BUSY", Payload::Glow(GLOW_SCALE + 1)),
        Err(DispatchError::BadPayload)
    ));
    assert_eq!(s.busy_glow, 0);
    assert!(matches!(
        apply(&mut s, b"A", Payload::GlowVec(vec![0, GLOW_SCALE + 1])),
        Err(DispatchError::BadPayload)
    ));
    assert_eq!(s.a_glow, vec![0]);
}

#[test]
fn wrong_payload_shape_is_rejected_without_state_change() {
    let mut s = PanelState::new();
    assert!(matches!(
        apply(&mut s, b"BUSY", Payload::Flag(true)),
        Err(DispatchError::BadPayload)
    ));
    assert!(matches!(
        apply(&mut s, b"POWER", Payload::Glow(1)),
        Err(DispatchError::BadPayload)
    ));
    assert!(matches!(
        apply(&mut s, b"A", Payload::Empty),
        Err(DispatchError::BadPayload)
    ));
    assert!(!s.power_on);
    assert_eq!(s.busy_glow, 0);
}

#[test]
fn rising_power_edge_restarts_the_status_polling() {
    let mut s = PanelState::new();
    s.status_poll(700);
    s.status_request_count = 2;
    apply(&mut s, b"POWER", Payload::Flag(true)).unwrap();
    assert!(s.power_on);
    assert_eq!(s.status_request_count, 0);
    assert_eq!(s.next_status_clock, 700);
    // A repeated "on" is not an edge and changes no bookkeeping.
    s.status_request_count = 1;
    apply(&mut s, b"POWER", Payload::Flag(true)).unwrap();
    assert_eq!(s.status_request_count, 1);
}

#[test]
fn estat_closes_one_outstanding_request() {
    let mut s = PanelState::new();
    s.status_request_count = 2;
    apply(&mut s, b"ESTAT", Payload::Empty).unwrap();
    assert_eq!(s.status_request_count, 1);
    apply(&mut s, b"ESTAT", Payload::Empty).unwrap();
    apply(&mut s, b"ESTAT", Payload::Empty).unwrap();
    assert_eq!(s.status_request_count, 0);
}

#[test]
fn kill_disconnects_and_clears_the_power_mirror() {
    let mut s = PanelState::new();
    apply(&mut s, b"POWER", Payload::Flag(true)).unwrap();
    let flow = apply(&mut s, b"KILL", Payload::Empty).unwrap();
    assert!(matches!(flow, ClientFlow::Disconnect));
    assert!(!s.power_on);
}

#[test]
fn wru_asks_for_an_identifying_reply() {
    let mut s = PanelState::new();
    let flow = apply(&mut s, b"WRU", Payload::Empty).unwrap();
    assert!(matches!(flow, ClientFlow::Identify));
    assert!(!s.power_on);
}

#[test]
fn shut_disconnects_quietly() {
    let mut s = PanelState::new();
    let flow = apply(&mut s, b"SHUT", Payload::Empty).unwrap();
    assert!(matches!(flow, ClientFlow::Disconnect));
}

#[test]
fn unknown_telemetry_is_ignored() {
    let mut s = PanelState::new();
    let flow = apply(&mut s, b"BOGUS", Payload::Flag(true)).unwrap();
    assert!(matches!(flow, ClientFlow::Continue));
    assert!(!s.power_on);
}

#[test]
fn status_poll_paces_requests() {
    let mut s = PanelState::new();
    // Power off: nothing is requested.
    assert!(!s.status_poll(10));
    apply(&mut s, b"POWER", Payload::Flag(true)).unwrap();
    // Power on with the period elapsed: one request is due, the next is
    // scheduled a full period later.
    assert!(s.status_poll(11));
    assert_eq!(s.next_status_clock, 11 + STATUS_PERIOD);
    assert!(!s.status_poll(12));
    assert!(s.status_poll(12 + STATUS_PERIOD));
    // With more than two snapshots outstanding, polling pauses.
    s.status_request_count = 3;
    assert!(!s.status_poll(u64::MAX / 2));
}

#[test]
fn events_map_to_their_wire_messages() {
    let cases: Vec<(Event, Option<(MessageCode, Payload)>, bool)> = vec![
        (Event::IAm, Some((MessageCode::Iam, Payload::Empty)), true),
        (Event::ShutDown, Some((MessageCode::Shut, Payload::Empty)), false),
        (Event::Kill, None, false),
        (Event::RequestStatus, Some((MessageCode::Stat, Payload::Empty)), true),
        (Event::PowerChange(true), Some((MessageCode::Power, Payload::Flag(true))), true),
        (
            Event::InitialInstructions,
            Some((MessageCode::Init, Payload::Empty)),
            true,
        ),
        (
            Event::NoProtection(false),
            Some((MessageCode::NoPro, Payload::Flag(false))),
            true,
        ),
        (Event::Clear, Some((MessageCode::Clear, Payload::Empty)), true),
        (Event::Manual(true), Some((MessageCode::Manl, Payload::Flag(true))), true),
        (Event::Reset, Some((MessageCode::Reset, Payload::Empty)), true),
        (
            Event::PlotterManual(true),
            Some((MessageCode::Pltmn, Payload::Flag(true))),
            true,
        ),
    ];
    for (ev, expected, continues) in cases {
        let (msg, more) = event_message(&ev);
        assert_eq!(more, continues);
        match (msg, expected) {
            (None, None) => {}
            (Some(m), Some((code, body))) => {
                assert_eq!(m.code, code);
                match (m.body, body) {
                    (Payload::Empty, Payload::Empty) => {}
                    (Payload::Flag(a), Payload::Flag(b)) => assert_eq!(a, b),
                    _ => panic!("payload shape mismatch"),
                }
            }
            _ => panic!("message presence mismatch"),
        }
    }
}

#[test]
fn codes_parse_and_spell_consistently() {
    let all = vec![
        (MessageCode::Stat, &b"STAT"[..]),
        (MessageCode::EStat, b"ESTAT"),
        (MessageCode::Power, b"POWER"),
        (MessageCode::NoPro, b"NOPRO"),
        (MessageCode::Manl, b"MANL"),
        (MessageCode::Pltmn, b"PLTMN"),
        (MessageCode::Clear, b"CLEAR"),
        (MessageCode::Reset, b"RESET"),
        (MessageCode::Init, b"INIT"),
        (MessageCode::Shut, b"SHUT"),
        (MessageCode::Kill, b"KILL"),
        (MessageCode::Busy, b"BUSY"),
        (MessageCode::Xfer, b"XFER"),
        (MessageCode::Ac, b"AC"),
        (MessageCode::Error, b"ERROR"),
        (MessageCode::Tag, b"TAG"),
        (MessageCode::THold, b"THOLD"),
        (MessageCode::BsPar, b"BSPAR"),
        (MessageCode::ARegister, b"A"),
        (MessageCode::Wru, b"WRU"),
        (MessageCode::Iam, b"IAM"),
    ];
    for (code, text) in all {
        assert_eq!(code_bytes(code), text.to_vec());
        assert_eq!(parse_code(&text.to_vec()), Some(code));
    }
    assert_eq!(parse_code(&b"stat".to_vec()), None);
    assert_eq!(parse_code(&b"".to_vec()), None);
    assert_eq!(parse_code(&b"STATX".to_vec()), None);
}

#[test]
fn wru_probe_accepts_only_iam() {
    assert!(wru_reply_accepted(&b"IAM".to_vec()));
    assert!(!wru_reply_accepted(&b"WRU".to_vec()));
    assert!(!wru_reply_accepted(&b"".to_vec()));
}

#[test]
fn payload_kinds_follow_the_protocol_table() {
    assert!(matches!(payload_kind(MessageCode::Power), PayloadKind::Flag));
    assert!(matches!(payload_kind(MessageCode::Reset), PayloadKind::Flag));
    assert!(matches!(payload_kind(MessageCode::Busy), PayloadKind::Glow));
    assert!(matches!(payload_kind(MessageCode::BsPar), PayloadKind::Glow));
    assert!(matches!(
        payload_kind(MessageCode::ARegister),
        PayloadKind::GlowVec
    ));
    assert!(matches!(payload_kind(MessageCode::Stat), PayloadKind::Empty));
    assert!(matches!(payload_kind(MessageCode::EStat), PayloadKind::Empty));
    assert!(matches!(payload_kind(MessageCode::Shut), PayloadKind::Empty));
}
