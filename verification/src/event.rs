//! Discrete control events and their outbound wire mapping.
//!
//! The render/input layer produces these events from user actions; the
//! client's send loop turns each into at most one outbound protocol
//! message.  `ShutDown` sends a final `SHUT` and then stops the loop;
//! `Kill` stops it without a farewell, as the connection is already gone.

use vstd::prelude::*;
use crate::message::{
    code_of_spec, MessageCode, OutMessage, OutMessageModel, Payload, PayloadModel,
};

verus! {

/// A discrete control event, as handed to the client by its input layer.
#[derive(Clone, Copy, PartialEq, Eq, Structural, Debug)]
pub enum Event {
    /// Answer a `WRU` identity probe.
    IAm,
    /// Close the connection in an orderly way.
    ShutDown,
    /// Stop the send loop; the connection is already gone.
    Kill,
    /// Ask the server for a full status snapshot.
    RequestStatus,
    /// Turn the emulated machine on or off.
    PowerChange(bool),
    /// Load the initial instructions.
    InitialInstructions,
    /// Toggle storage protection off or on.
    NoProtection(bool),
    /// Clear the primary register.
    Clear,
    /// Toggle manual control.
    Manual(bool),
    /// Arm the self-expiring reset state.
    Reset,
    /// Toggle the plotter's manual control.
    PlotterManual(bool),
}

/// The outbound message each event produces, if any.
pub open spec fn event_out(ev: Event) -> Option<OutMessageModel> {
    match ev {
        Event::IAm => Some(
            OutMessageModel { code: MessageCode::Iam, body: PayloadModel::Empty },
        ),
        Event::ShutDown => Some(
            OutMessageModel { code: MessageCode::Shut, body: PayloadModel::Empty },
        ),
        Event::Kill => None,
        Event::RequestStatus => Some(
            OutMessageModel { code: MessageCode::Stat, body: PayloadModel::Empty },
        ),
        Event::PowerChange(v) => Some(
            OutMessageModel { code: MessageCode::Power, body: PayloadModel::Flag(v) },
        ),
        Event::InitialInstructions => Some(
            OutMessageModel { code: MessageCode::Init, body: PayloadModel::Empty },
        ),
        Event::NoProtection(v) => Some(
            OutMessageModel { code: MessageCode::NoPro, body: PayloadModel::Flag(v) },
        ),
        Event::Clear => Some(
            OutMessageModel { code: MessageCode::Clear, body: PayloadModel::Empty },
        ),
        Event::Manual(v) => Some(
            OutMessageModel { code: MessageCode::Manl, body: PayloadModel::Flag(v) },
        ),
        Event::Reset => Some(
            OutMessageModel { code: MessageCode::Reset, body: PayloadModel::Empty },
        ),
        Event::PlotterManual(v) => Some(
            OutMessageModel { code: MessageCode::Pltmn, body: PayloadModel::Flag(v) },
        ),
    }
}

/// Whether the send loop keeps running after handling the event.
pub open spec fn event_continues(ev: Event) -> bool {
    !(ev is ShutDown || ev is Kill)
}

/// The view of an optional outbound message.
pub open spec fn opt_message_view(o: Option<OutMessage>) -> Option<OutMessageModel> {
    match o {
        Some(m) => Some(m@),
        None => None,
    }
}

/// Maps one control event to the message the client sends for it, plus
/// whether the send loop continues afterwards.
pub fn event_message(ev: &Event) -> (r: (Option<OutMessage>, bool))
    ensures
        opt_message_view(r.0) == event_out(*ev),
        r.1 == event_continues(*ev),
{
    match ev {
        Event::IAm => (
            Some(OutMessage { code: MessageCode::Iam, body: Payload::Empty }),
            true,
        ),
        Event::ShutDown => (
            Some(OutMessage { code: MessageCode::Shut, body: Payload::Empty }),
            false,
        ),
        Event::Kill => (None, false),
        Event::RequestStatus => (
            Some(OutMessage { code: MessageCode::Stat, body: Payload::Empty }),
            true,
        ),
        Event::PowerChange(v) => (
            Some(OutMessage { code: MessageCode::Power, body: Payload::Flag(*v) }),
            true,
        ),
        Event::InitialInstructions => (
            Some(OutMessage { code: MessageCode::Init, body: Payload::Empty }),
            true,
        ),
        Event::NoProtection(v) => (
            Some(OutMessage { code: MessageCode::NoPro, body: Payload::Flag(*v) }),
            true,
        ),
        Event::Clear => (
            Some(OutMessage { code: MessageCode::Clear, body: Payload::Empty }),
            true,
        ),
        Event::Manual(v) => (
            Some(OutMessage { code: MessageCode::Manl, body: Payload::Flag(*v) }),
            true,
        ),
        Event::Reset => (
            Some(OutMessage { code: MessageCode::Reset, body: Payload::Empty }),
            true,
        ),
        Event::PlotterManual(v) => (
            Some(OutMessage { code: MessageCode::Pltmn, body: Payload::Flag(*v) }),
            true,
        ),
    }
}

/// Whether a `WRU` identity probe was answered with the expected `IAM`
/// code; a connection whose reply spells anything else is dropped.
pub fn wru_reply_accepted(code: &Vec<u8>) -> (r: bool)
    ensures
        r == (code_of_spec(code@) == Some(MessageCode::Iam)),
{
    match crate::message::parse_code(code) {
        Some(MessageCode::Iam) => true,
        _ => false,
    }
}

} // verus!
