//! The protocol adapters' decisions: what goes out to a client for each
//! thing a subscriber receives, and what a client's input puts on the bus.

use vstd::prelude::*;
use crate::bus::{Bus, BusView, Received, ReceivedView, Subscriber};
use crate::message::{Message, MessageView, SignalRequest, opt_text};
use crate::text::{encode_text, message_text};
use crate::wire::{Frame, FrameView, outbound_frame, outbound_of, republished};

verus! {

/// What the binary-stream adapter does next on its outgoing side.
#[derive(Debug, PartialEq, Eq)]
pub enum OutboundAction {
    /// Write this frame to the client; stop if the write fails.
    Send(Frame),
    /// Note that this many messages were lost; the client is told nothing
    /// and the connection stays.
    NoteLag(u64),
    /// Wait until something is published.
    Wait,
    /// End the connection.
    Stop,
}

/// What an `OutboundAction` holds.
pub enum OutboundActionView {
    Send(FrameView),
    NoteLag(u64),
    Wait,
    Stop,
}

impl View for OutboundAction {
    type V = OutboundActionView;

    open spec fn view(&self) -> OutboundActionView {
        match *self {
            OutboundAction::Send(f) => OutboundActionView::Send(f@),
            OutboundAction::NoteLag(k) => OutboundActionView::NoteLag(k),
            OutboundAction::Wait => OutboundActionView::Wait,
            OutboundAction::Stop => OutboundActionView::Stop,
        }
    }
}

/// The outgoing action for each thing received.
pub open spec fn outbound_action_of(got: ReceivedView) -> OutboundActionView {
    match got {
        ReceivedView::Message(m) => OutboundActionView::Send(outbound_of(m)),
        ReceivedView::Lagged(k) => OutboundActionView::NoteLag(k),
        ReceivedView::Empty => OutboundActionView::Wait,
        ReceivedView::Closed => OutboundActionView::Stop,
    }
}

/// Decides the binary-stream adapter's next outgoing action.
pub fn outbound_step(got: Received) -> (a: OutboundAction)
    ensures
        a@ == outbound_action_of(got@),
{
    match got {
        Received::Message(m) => OutboundAction::Send(outbound_frame(m)),
        Received::Lagged(k) => OutboundAction::NoteLag(k),
        Received::Empty => OutboundAction::Wait,
        Received::Closed => OutboundAction::Stop,
    }
}

/// Receives for `sub` and decides the next outgoing action.
pub fn outbound_next(bus: &Bus, sub: &mut Subscriber) -> (a: OutboundAction)
    requires
        bus.wf(),
    ensures
        a@ == outbound_action_of(bus@.receive(old(sub)@).0),
        final(sub)@ == bus@.receive(old(sub)@).1,
{
    outbound_step(bus.receive(sub))
}

/// What the text-event adapter does next.
#[derive(Debug, PartialEq, Eq)]
pub enum EventAction {
    /// Push one event whose data is this text, the JSON text of a message.
    Emit(String),
    /// Note that this many messages were lost; the stream goes on.
    NoteLag(u64),
    /// Wait until something is published.
    Wait,
    /// End the stream.
    Stop,
}

/// What an `EventAction` holds.
pub enum EventActionView {
    Emit(Seq<char>),
    NoteLag(u64),
    Wait,
    Stop,
}

impl View for EventAction {
    type V = EventActionView;

    open spec fn view(&self) -> EventActionView {
        match *self {
            EventAction::Emit(m) => EventActionView::Emit(m@),
            EventAction::NoteLag(k) => EventActionView::NoteLag(k),
            EventAction::Wait => EventActionView::Wait,
            EventAction::Stop => EventActionView::Stop,
        }
    }
}

/// The text-event action for each thing received: every message, of any
/// kind, goes out as one event.
pub open spec fn event_action_of(got: ReceivedView) -> EventActionView {
    match got {
        ReceivedView::Message(m) => EventActionView::Emit(message_text(m)),
        ReceivedView::Lagged(k) => EventActionView::NoteLag(k),
        ReceivedView::Empty => EventActionView::Wait,
        ReceivedView::Closed => EventActionView::Stop,
    }
}

/// Decides the text-event adapter's next action.
pub fn event_step(got: Received) -> (a: EventAction)
    ensures
        a@ == event_action_of(got@),
{
    match got {
        Received::Message(m) => EventAction::Emit(encode_text(&m)),
        Received::Lagged(k) => EventAction::NoteLag(k),
        Received::Empty => EventAction::Wait,
        Received::Closed => EventAction::Stop,
    }
}

/// The view of a message that may be absent.
pub open spec fn opt_message(m: Option<Message>) -> Option<MessageView> {
    match m {
        Some(x) => Some(x@),
        None => None,
    }
}

/// The bus after the incoming side has handled one client frame: a frame
/// that decoded to a signaling message is republished, any other frame, and
/// one that did not decode, leaves the bus as it was.
pub open spec fn inbound_of(bus: BusView, decoded: Option<MessageView>) -> BusView {
    match decoded {
        Some(m) => if m is Signal {
            bus.publish(m)
        } else {
            bus
        },
        None => bus,
    }
}

/// Handles one client frame on the incoming side of the binary-stream
/// adapter. `decoded` is the message that the frame's text decoded to, or
/// nothing for a frame that is not text or does not decode. Says whether a
/// message went onto the bus. The connection goes on either way.
pub fn inbound_step(bus: &mut Bus, decoded: Option<Message>) -> (published: bool)
    requires
        old(bus).wf(),
    ensures
        final(bus).wf(),
        final(bus)@ == inbound_of(old(bus)@, opt_message(decoded)),
        published == (decoded is Some && decoded->0@ is Signal && old(bus)@.accepts()),
{
    match decoded {
        Some(m) => match republished(m) {
            Some(signal) => bus.publish(signal),
            None => false,
        },
        None => false,
    }
}

/// The answer to a signaling request.
#[derive(Clone, Copy, Debug, PartialEq, Eq, Structural)]
pub enum IngressReply {
    /// The request was taken and its message published.
    Acknowledged,
    /// The body did not decode: a client error, and the bus was not touched.
    Rejected,
}

/// The view of a request that may be absent, as the message it stands for.
pub open spec fn request_message(body: Option<SignalRequest>) -> Option<MessageView> {
    match body {
        Some(req) => Some(MessageView::Signal { sdp: req.sdp@, candidate: opt_text(req.candidate) }),
        None => None,
    }
}

/// Handles one signaling request. `body` is the decoded request, or nothing
/// where the body did not decode. A decoded request is published as a
/// signaling message and acknowledged, whether or not anyone listens; a
/// body that did not decode is rejected and the bus stays as it was.
pub fn ingest_signal(bus: &mut Bus, body: Option<SignalRequest>) -> (reply: IngressReply)
    requires
        old(bus).wf(),
    ensures
        final(bus).wf(),
        reply == (if body is Some {
            IngressReply::Acknowledged
        } else {
            IngressReply::Rejected
        }),
        final(bus)@ == inbound_of(old(bus)@, request_message(body)),
        body is None ==> final(bus)@ == old(bus)@,
{
    match body {
        Some(req) => {
            let _ = bus.publish(req.into_message());
            IngressReply::Acknowledged
        },
        None => IngressReply::Rejected,
    }
}

} // verus!
