//! The capture source seen from the pipeline: what a read of the interface
//! can bring, the state the source is in afterwards, and what each of the
//! two pipelines does with a captured packet.

use vstd::prelude::*;
use influxdb2::models::data_point::DataPoint;
use crate::aggregator::{Aggregator, AggregatorView, batch_view, elapsed};
use crate::bus::{Bus, BusView};
use crate::db::{DbError, InfluxWriter, packet_point, timestamp_fits};
use crate::message::{Message, MessageView, PacketData};

verus! {

/// Read timeout of the capture handle, in milliseconds.
pub const READ_TIMEOUT_MS: i32 = 100;

/// Bytes kept of each frame.
pub const SNAPLEN: i32 = 65535;

/// Size of the capture handle's buffer on the persistence path, in bytes.
pub const CAPTURE_BUFFER_BYTES: i32 = 16777216;

/// The filter set on the capture handle: only TCP and UDP frames pass.
pub const CAPTURE_FILTER: &'static str = "tcp or udp";

/// Pause after a read that timed out, in milliseconds.
pub const SHORT_BACKOFF_MS: u64 = 10;

/// Pause after a read that failed, in milliseconds.
pub const LONG_BACKOFF_MS: u64 = 50;

/// Offset of the protocol field in a captured frame: an Ethernet header of
/// fourteen bytes, then the tenth byte of the IPv4 header.
pub const PROTOCOL_OFFSET: usize = 23;

/// Size threshold of the streaming path.
pub const STREAM_BATCH_SIZE: usize = 64;

/// Time threshold of the streaming path, in milliseconds.
pub const STREAM_INTERVAL_MS: u64 = 200;

/// Size threshold of the persistence path.
pub const SINK_BATCH_SIZE: usize = 10000;

/// Time threshold of the persistence path, in milliseconds.
pub const SINK_INTERVAL_MS: u64 = 100;

/// The transport protocol of a frame, as far as it is told apart.
#[derive(Clone, Copy, Debug, PartialEq, Eq, Structural)]
pub enum Protocol {
    Tcp,
    Udp,
    Other,
}

/// The protocol that the frame's protocol field names; a frame too short to
/// have the field is `Other`.
pub open spec fn protocol_of(frame: Seq<u8>) -> Protocol {
    if frame.len() > 23 && frame[23] == 6 {
        Protocol::Tcp
    } else if frame.len() > 23 && frame[23] == 17 {
        Protocol::Udp
    } else {
        Protocol::Other
    }
}

/// The tag under which a protocol is stored.
pub open spec fn tag_of(p: Protocol) -> Seq<char> {
    match p {
        Protocol::Tcp => "TCP"@,
        Protocol::Udp => "UDP"@,
        Protocol::Other => "OTHER"@,
    }
}

/// Classifies a frame by its protocol field.
pub fn classify_protocol(frame: &[u8]) -> (p: Protocol)
    ensures
        p == protocol_of(frame@),
{
    if frame.len() > PROTOCOL_OFFSET {
        let field: u8 = frame[PROTOCOL_OFFSET];
        if field == 6 {
            Protocol::Tcp
        } else if field == 17 {
            Protocol::Udp
        } else {
            Protocol::Other
        }
    } else {
        Protocol::Other
    }
}

impl Protocol {
    /// The tag under which this protocol is stored.
    pub fn tag(&self) -> (t: &'static str)
        ensures
            t@ == tag_of(*self),
    {
        match self {
            Protocol::Tcp => "TCP",
            Protocol::Udp => "UDP",
            Protocol::Other => "OTHER",
        }
    }
}

/// Why a capture source could not be started, or what went wrong with a
/// read.
#[derive(Clone, Copy, Debug, PartialEq, Eq, Structural)]
pub enum CaptureError {
    /// The named interface is not among the machine's devices.
    InterfaceNotFound,
    /// The capture handle could not be opened.
    OpenFailure,
    /// A read timed out: expected, answered with a short pause.
    Timeout,
    /// A read failed: answered with a longer pause.
    DeviceError,
}

/// The position of the first of `names` that equals `wanted`; an interface
/// that is in no position is not found.
pub fn find_interface(names: &Vec<String>, wanted: &String) -> (at: Result<usize, CaptureError>)
    ensures
        match at {
            Ok(i) => {
                &&& i < names@.len()
                &&& names@[i as int]@ == wanted@
                &&& forall|j: int| 0 <= j < i ==> (#[trigger] names@[j])@ != wanted@
            },
            Err(e) => {
                &&& e == CaptureError::InterfaceNotFound
                &&& forall|j: int| 0 <= j < names@.len() ==> (#[trigger] names@[j])@ != wanted@
            },
        },
{
    let mut i: usize = 0;
    while i < names.len()
        invariant
            i <= names.len(),
            forall|j: int| 0 <= j < i ==> (#[trigger] names@[j])@ != wanted@,
        decreases names.len() - i,
    {
        if names[i] == *wanted {
            return Ok(i);
        }
        i = i + 1;
    }
    Err(CaptureError::InterfaceNotFound)
}

/// The event that a failed read counts as: a timeout or a device error.
/// The two errors of start-up are no events of a running source.
pub fn event_of_error<P>(error: CaptureError) -> (event: Option<CaptureEvent<P>>)
    ensures
        event == (match error {
            CaptureError::Timeout => Some(CaptureEvent::<P>::Timeout),
            CaptureError::DeviceError => Some(CaptureEvent::<P>::DeviceError),
            _ => None::<CaptureEvent<P>>,
        }),
{
    match error {
        CaptureError::Timeout => Some(CaptureEvent::Timeout),
        CaptureError::DeviceError => Some(CaptureEvent::DeviceError),
        _ => None,
    }
}

/// What one blocking read of the interface brings.
#[derive(Debug)]
pub enum CaptureEvent<P> {
    /// A packet was captured.
    Packet(P),
    /// The read timeout ran out with no packet.
    Timeout,
    /// The read failed.
    DeviceError,
}

/// The state of a capture source. There is no final state: the source goes
/// back to capturing after every pause.
#[derive(Clone, Copy, Debug, PartialEq, Eq, Structural)]
pub enum CaptureState {
    Capturing,
    ShortBackoff,
    LongBackoff,
}

/// The state that follows an event while capturing.
pub open spec fn state_after<P>(event: CaptureEvent<P>) -> CaptureState {
    match event {
        CaptureEvent::Packet(_) => CaptureState::Capturing,
        CaptureEvent::Timeout => CaptureState::ShortBackoff,
        CaptureEvent::DeviceError => CaptureState::LongBackoff,
    }
}

/// How long a source pauses in a state before it captures again.
pub open spec fn pause_of(state: CaptureState) -> u64 {
    match state {
        CaptureState::Capturing => 0,
        CaptureState::ShortBackoff => 10,
        CaptureState::LongBackoff => 50,
    }
}

/// The state that follows `event`.
pub fn next_state<P>(event: &CaptureEvent<P>) -> (s: CaptureState)
    ensures
        s == state_after(*event),
{
    match event {
        CaptureEvent::Packet(_) => CaptureState::Capturing,
        CaptureEvent::Timeout => CaptureState::ShortBackoff,
        CaptureEvent::DeviceError => CaptureState::LongBackoff,
    }
}

/// The pause of `state`, in milliseconds.
pub fn backoff_millis(state: CaptureState) -> (ms: u64)
    ensures
        ms == pause_of(state),
{
    match state {
        CaptureState::Capturing => 0,
        CaptureState::ShortBackoff => SHORT_BACKOFF_MS,
        CaptureState::LongBackoff => LONG_BACKOFF_MS,
    }
}

/// What the streaming aggregator does with an event at `now`: a packet is
/// offered, anything else only lets the time trigger fire.
pub open spec fn stream_flush(
    v: AggregatorView<PacketData>,
    event: CaptureEvent<PacketData>,
    now: u64,
) -> (AggregatorView<PacketData>, Option<Seq<PacketData>>) {
    match event {
        CaptureEvent::Packet(r) => v.offer(r, now),
        _ => v.poll(now),
    }
}

/// The bus after the streaming path has handled a flush: a batch is
/// published as one message, no batch leaves the bus as it was.
pub open spec fn stream_publish(bus: BusView, batch: Option<Seq<PacketData>>) -> BusView {
    match batch {
        Some(readings) => bus.publish(MessageView::Batch { readings }),
        None => bus,
    }
}

/// One turn of the streaming path: the event goes to the aggregator, a
/// batch that comes back is published on the bus as one message, and the
/// source's next state is returned.
pub fn stream_step(
    agg: &mut Aggregator<PacketData>,
    bus: &mut Bus,
    event: CaptureEvent<PacketData>,
    now: u64,
) -> (next: CaptureState)
    requires
        old(bus).wf(),
    ensures
        final(bus).wf(),
        next == state_after(event),
        final(agg)@ == stream_flush(old(agg)@, event, now).0,
        final(bus)@ == stream_publish(old(bus)@, stream_flush(old(agg)@, event, now).1),
        old(agg)@.wf() ==> final(agg)@.wf(),
{
    let next = next_state(&event);
    let flushed: Option<Vec<PacketData>> = match event {
        CaptureEvent::Packet(r) => agg.offer(r, now),
        _ => agg.poll(now),
    };
    match flushed {
        Some(readings) => {
            let _ = bus.publish(Message::Batch { readings });
        },
        None => {},
    }
    next
}

/// What the persistence path knows of a captured packet.
#[derive(Clone, Copy, Debug, PartialEq, Eq, Structural)]
pub struct SinkPacket {
    pub protocol: Protocol,
    pub length: u32,
    pub ts_sec: i64,
    pub ts_usec: i64,
}

/// The point that stands for a packet on the persistence path.
pub open spec fn sink_point(p: SinkPacket) -> DataPoint {
    packet_point(tag_of(p.protocol), p.length, p.ts_sec, p.ts_usec)
}

/// Whether a packet's capture time fits in 64 bits of nanoseconds.
pub open spec fn packet_fits(p: SinkPacket) -> bool {
    timestamp_fits(p.ts_sec, p.ts_usec)
}

/// Whether an event brings a packet that the persistence path refuses: one
/// whose capture time does not fit.
pub open spec fn sink_refuses(event: CaptureEvent<SinkPacket>) -> bool {
    event is Packet && !packet_fits(event->Packet_0)
}

/// What the persistence aggregator does with an event at `now`: a packet
/// whose time fits is offered as a point; any other read, with no packet or
/// with one that is refused, still lets the time trigger fire.
pub open spec fn sink_flush(
    v: AggregatorView<DataPoint>,
    event: CaptureEvent<SinkPacket>,
    now: u64,
) -> (AggregatorView<DataPoint>, Option<Seq<DataPoint>>) {
    match event {
        CaptureEvent::Packet(p) => if packet_fits(p) {
            v.offer(sink_point(p), now)
        } else {
            v.poll(now)
        },
        _ => v.poll(now),
    }
}

/// What one turn of the persistence path hands back: the batch to write to
/// the store, if a trigger fired, and the report on a packet that was
/// refused, if one was.
#[derive(Debug)]
pub struct SinkOutcome {
    pub batch: Option<Vec<DataPoint>>,
    pub rejected: Option<DbError>,
}

/// One turn of the persistence path. A packet becomes a point and is
/// offered to the aggregator. A packet whose time does not fit is reported
/// and adds nothing to the buffer. On every read, with or without a packet,
/// the time trigger applies: once more than the interval has gone by over a
/// buffer that is not empty, the buffer comes back as the batch to write,
/// without waiting for a further packet.
pub fn sink_step(
    writer: &InfluxWriter,
    agg: &mut Aggregator<DataPoint>,
    event: CaptureEvent<SinkPacket>,
    now: u64,
) -> (out: SinkOutcome)
    ensures
        out.rejected is Some <==> sink_refuses(event),
        out.rejected is Some ==> out.rejected->0 is TimestampOverflow,
        final(agg)@ == sink_flush(old(agg)@, event, now).0,
        batch_view(out.batch) == sink_flush(old(agg)@, event, now).1,
        old(agg)@.wf() ==> final(agg)@.wf(),
{
    match event {
        CaptureEvent::Packet(p) => {
            match writer.make_point(p.protocol.tag(), p.length, p.ts_sec, p.ts_usec) {
                Ok(point) => SinkOutcome { batch: agg.offer(point, now), rejected: None },
                Err(e) => SinkOutcome { batch: agg.poll(now), rejected: Some(e) },
            }
        },
        _ => SinkOutcome { batch: agg.poll(now), rejected: None },
    }
}

/// On the persistence path a read that brings no packet flushes a buffer
/// that has waited longer than the interval: the batch is everything
/// buffered, and the buffer starts again empty at `now`.
pub proof fn lemma_sink_idle_flush(v: AggregatorView<DataPoint>, event: CaptureEvent<SinkPacket>, now: u64)
    requires
        !(event is Packet),
        v.buffer.len() > 0,
        elapsed(v.last_flush, now) > v.interval,
    ensures
        sink_flush(v, event, now).1 == Some(v.buffer),
        sink_flush(v, event, now).0.buffer.len() == 0,
        sink_flush(v, event, now).0.last_flush == now,
{
}

} // verus!
