//! The messages carried on the distribution bus and their mathematical views.

use vstd::prelude::*;

verus! {

/// One captured frame reduced to telemetry: capture time in nanoseconds and
/// the frame's length on the wire.
#[derive(Clone, Copy, Debug, PartialEq, Eq, Structural)]
pub struct PacketData {
    pub timestamp: i64,
    pub value: u32,
}

/// Events that can be broadcast: an opaque signaling payload, a single
/// reading, or a batch of readings flushed together.
#[derive(Clone, Debug, PartialEq, Eq)]
pub enum Message {
    Signal { sdp: String, candidate: Option<String> },
    Data { timestamp: i64, value: u32 },
    Batch { readings: Vec<PacketData> },
}

/// What a `Message` is, independent of how its strings and vectors are stored.
pub enum MessageView {
    Signal { sdp: Seq<char>, candidate: Option<Seq<char>> },
    Data { timestamp: i64, value: u32 },
    Batch { readings: Seq<PacketData> },
}

/// The view of an optional string.
pub open spec fn opt_text(s: Option<String>) -> Option<Seq<char>> {
    match s {
        Some(t) => Some(t@),
        None => None,
    }
}

impl View for Message {
    type V = MessageView;

    open spec fn view(&self) -> MessageView {
        match *self {
            Message::Signal { sdp, candidate } => MessageView::Signal {
                sdp: sdp@,
                candidate: opt_text(candidate),
            },
            Message::Data { timestamp, value } => MessageView::Data { timestamp, value },
            Message::Batch { readings } => MessageView::Batch { readings: readings@ },
        }
    }
}

/// A copy of `readings`, element for element.
pub fn copy_readings(readings: &Vec<PacketData>) -> (out: Vec<PacketData>)
    ensures
        out@ == readings@,
{
    let mut out: Vec<PacketData> = Vec::new();
    let mut i: usize = 0;
    while i < readings.len()
        invariant
            i <= readings.len(),
            out@ == readings@.subrange(0, i as int),
        decreases readings.len() - i,
    {
        out.push(readings[i]);
        i = i + 1;
        assert(out@ =~= readings@.subrange(0, i as int));
    }
    assert(readings@.subrange(0, readings.len() as int) =~= readings@);
    out
}

impl Message {
    /// A second message with the same content, for delivery to one more
    /// subscriber.
    pub fn duplicate(&self) -> (out: Message)
        ensures
            out@ == self@,
    {
        match self {
            Message::Signal { sdp, candidate } => {
                let c: Option<String> = match candidate {
                    Some(t) => Some(t.clone()),
                    None => None,
                };
                Message::Signal { sdp: sdp.clone(), candidate: c }
            },
            Message::Data { timestamp, value } => Message::Data {
                timestamp: *timestamp,
                value: *value,
            },
            Message::Batch { readings } => Message::Batch { readings: copy_readings(readings) },
        }
    }
}

/// The body of a signaling request: a session description and, optionally,
/// a connectivity candidate. Both are carried without interpretation.
#[derive(Clone, Debug, PartialEq, Eq)]
pub struct SignalRequest {
    pub sdp: String,
    pub candidate: Option<String>,
}

impl SignalRequest {
    /// The bus message that a decoded request is published as.
    pub fn into_message(self) -> (m: Message)
        ensures
            m@ == (MessageView::Signal { sdp: self.sdp@, candidate: opt_text(self.candidate) }),
    {
        Message::Signal { sdp: self.sdp, candidate: self.candidate }
    }
}

} // verus!
