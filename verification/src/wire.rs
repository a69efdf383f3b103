//! The binary wire encoding: one reading is twelve bytes, the timestamp as
//! eight little-endian bytes in two's complement followed by the value as
//! four little-endian bytes. A frame is any number of readings laid end to
//! end, with no delimiter and no length prefix.

use vstd::prelude::*;
use crate::message::{Message, MessageView, PacketData};
use crate::text::{encode_text, message_text};

verus! {

/// Bytes taken by one encoded reading.
pub const RECORD_LEN: usize = 12;

/// The two's-complement reading of a signed 64-bit number, as a number in
/// `0 .. 2^64`.
pub open spec fn unsigned_of(t: i64) -> int {
    if t >= 0 {
        t as int
    } else {
        t as int + 0x1_0000_0000_0000_0000
    }
}

/// The signed number whose two's-complement reading is `u`.
pub open spec fn signed_of(u: int) -> i64 {
    if u < 0x8000_0000_0000_0000 {
        u as i64
    } else {
        (u - 0x1_0000_0000_0000_0000) as i64
    }
}

/// The four base-256 digits of `x`, least significant first.
pub open spec fn le4(x: int) -> Seq<u8> {
    let x1 = x / 256;
    let x2 = x1 / 256;
    let x3 = x2 / 256;
    seq![(x % 256) as u8, (x1 % 256) as u8, (x2 % 256) as u8, (x3 % 256) as u8]
}

/// The eight base-256 digits of `x`, least significant first.
pub open spec fn le8(x: int) -> Seq<u8> {
    let x1 = x / 256;
    let x2 = x1 / 256;
    let x3 = x2 / 256;
    let x4 = x3 / 256;
    le4(x) + le4(x4)
}

/// The number whose base-256 digits, least significant first, are the first
/// four bytes of `s`.
pub open spec fn value_le4(s: Seq<u8>) -> int {
    s[0] as int + 256 * (s[1] as int + 256 * (s[2] as int + 256 * (s[3] as int)))
}

/// The number whose base-256 digits, least significant first, are the first
/// eight bytes of `s`.
pub open spec fn value_le8(s: Seq<u8>) -> int {
    value_le4(s) + 0x1_0000_0000 * value_le4(s.subrange(4, 8))
}

/// The twelve bytes that stand for one reading.
pub open spec fn record_bytes(r: PacketData) -> Seq<u8> {
    le8(unsigned_of(r.timestamp)) + le4(r.value as int)
}

/// The reading that the first twelve bytes of `s` stand for.
pub open spec fn record_of(s: Seq<u8>) -> PacketData {
    PacketData {
        timestamp: signed_of(value_le8(s.subrange(0, 8))),
        value: value_le4(s.subrange(8, 12)) as u32,
    }
}

/// The bytes of a frame that carries `rs`, in order.
pub open spec fn frame_bytes(rs: Seq<PacketData>) -> Seq<u8>
    decreases rs.len(),
{
    if rs.len() == 0 {
        Seq::empty()
    } else {
        frame_bytes(rs.drop_last()) + record_bytes(rs.last())
    }
}

/// The readings that a frame of whole records carries: as many as its
/// length divided by twelve.
pub open spec fn frame_records(s: Seq<u8>) -> Seq<PacketData> {
    Seq::new((s.len() / 12) as nat, |i: int| record_of(s.subrange(12 * i, 12 * i + 12)))
}

/// Four digits read back give the number they were taken from.
pub proof fn lemma_le4_round_trip(x: int)
    requires
        0 <= x < 0x1_0000_0000,
    ensures
        le4(x).len() == 4,
        value_le4(le4(x)) == x,
{
}

/// Eight digits read back give the number they were taken from.
pub proof fn lemma_le8_round_trip(x: int)
    requires
        0 <= x < 0x1_0000_0000_0000_0000,
    ensures
        le8(x).len() == 8,
        value_le8(le8(x)) == x,
{
    let x1 = x / 256;
    let x2 = x1 / 256;
    let x3 = x2 / 256;
    let x4 = x3 / 256;
    lemma_le4_round_trip(x4);
    assert(le8(x).subrange(4, 8) =~= le4(x4));
    assert(value_le4(le8(x)) == value_le4(le4(x)));
    assert(value_le4(le4(x)) == x - 0x1_0000_0000 * x4);
}

/// Decoding the twelve bytes of a reading gives back its timestamp and its
/// value, whatever they are.
pub proof fn lemma_record_round_trip(r: PacketData)
    ensures
        record_bytes(r).len() == 12,
        record_of(record_bytes(r)) == r,
{
    let u = unsigned_of(r.timestamp);
    lemma_le8_round_trip(u);
    lemma_le4_round_trip(r.value as int);
    assert(record_bytes(r).subrange(0, 8) =~= le8(u));
    assert(record_bytes(r).subrange(8, 12) =~= le4(r.value as int));
}

/// A frame of `K` readings is exactly `12 * K` bytes long.
pub proof fn lemma_frame_len(rs: Seq<PacketData>)
    ensures
        frame_bytes(rs).len() == 12 * rs.len(),
    decreases rs.len(),
{
    if rs.len() > 0 {
        lemma_frame_len(rs.drop_last());
        lemma_record_round_trip(rs.last());
    }
}

/// The `i`-th twelve bytes of a frame are the bytes of its `i`-th reading.
pub proof fn lemma_frame_record_at(rs: Seq<PacketData>, i: int)
    requires
        0 <= i < rs.len(),
    ensures
        frame_bytes(rs).len() == 12 * rs.len(),
        frame_bytes(rs).subrange(12 * i, 12 * i + 12) == record_bytes(rs[i]),
    decreases rs.len(),
{
    lemma_frame_len(rs);
    lemma_frame_len(rs.drop_last());
    lemma_record_round_trip(rs.last());
    if i == rs.len() - 1 {
        assert(frame_bytes(rs).subrange(12 * i, 12 * i + 12) =~= record_bytes(rs[i]));
    } else {
        lemma_frame_record_at(rs.drop_last(), i);
        assert(frame_bytes(rs).subrange(12 * i, 12 * i + 12) =~= frame_bytes(
            rs.drop_last(),
        ).subrange(12 * i, 12 * i + 12));
    }
}

/// Decoding a frame gives back the readings it was encoded from, in order.
pub proof fn lemma_frame_round_trip(rs: Seq<PacketData>)
    ensures
        frame_records(frame_bytes(rs)) == rs,
{
    lemma_frame_len(rs);
    assert forall|i: int| 0 <= i < rs.len() implies #[trigger] frame_records(frame_bytes(rs))[i]
        == rs[i] by {
        lemma_frame_record_at(rs, i);
        lemma_record_round_trip(rs[i]);
    }
    assert(frame_records(frame_bytes(rs)) =~= rs);
}

fn to_unsigned(t: i64) -> (u: u64)
    ensures
        u as int == unsigned_of(t),
{
    if t >= 0 {
        t as u64
    } else {
        ((t - i64::MIN) as u64) + 0x8000_0000_0000_0000u64
    }
}

fn to_signed(u: u64) -> (t: i64)
    ensures
        t == signed_of(u as int),
{
    if u < 0x8000_0000_0000_0000u64 {
        u as i64
    } else {
        ((u - 0x8000_0000_0000_0000u64) as i64) + i64::MIN
    }
}

fn push_le4(buf: &mut Vec<u8>, x: u32)
    ensures
        final(buf)@ == old(buf)@ + le4(x as int),
{
    let x1: u32 = x / 256;
    let x2: u32 = x1 / 256;
    let x3: u32 = x2 / 256;
    buf.push((x % 256) as u8);
    buf.push((x1 % 256) as u8);
    buf.push((x2 % 256) as u8);
    buf.push((x3 % 256) as u8);
    assert(buf@ =~= old(buf)@ + le4(x as int));
}

fn push_le8(buf: &mut Vec<u8>, x: u64)
    ensures
        final(buf)@ == old(buf)@ + le8(x as int),
{
    let x1: u64 = x / 256;
    let x2: u64 = x1 / 256;
    let x3: u64 = x2 / 256;
    let x4: u64 = x3 / 256;
    let x5: u64 = x4 / 256;
    let x6: u64 = x5 / 256;
    let x7: u64 = x6 / 256;
    buf.push((x % 256) as u8);
    buf.push((x1 % 256) as u8);
    buf.push((x2 % 256) as u8);
    buf.push((x3 % 256) as u8);
    buf.push((x4 % 256) as u8);
    buf.push((x5 % 256) as u8);
    buf.push((x6 % 256) as u8);
    buf.push((x7 % 256) as u8);
    assert(buf@ =~= old(buf)@ + le8(x as int));
}

fn read_le4(bytes: &[u8], at: usize) -> (x: u32)
    requires
        at + 4 <= bytes.len(),
    ensures
        x as int == value_le4(bytes@.subrange(at as int, at + 4)),
{
    let b0: u32 = bytes[at] as u32;
    let b1: u32 = bytes[at + 1] as u32;
    let b2: u32 = bytes[at + 2] as u32;
    let b3: u32 = bytes[at + 3] as u32;
    b0 + 256 * (b1 + 256 * (b2 + 256 * b3))
}

/// Appends the twelve bytes of one reading to `buf`.
pub fn append_record(buf: &mut Vec<u8>, r: PacketData)
    ensures
        final(buf)@ == old(buf)@ + record_bytes(r),
{
    let u: u64 = to_unsigned(r.timestamp);
    push_le8(buf, u);
    push_le4(buf, r.value);
    assert(buf@ =~= old(buf)@ + record_bytes(r));
}

/// The twelve bytes of a single reading.
pub fn encode_record(timestamp: i64, value: u32) -> (out: Vec<u8>)
    ensures
        out@ == record_bytes(PacketData { timestamp, value }),
{
    let mut out: Vec<u8> = Vec::new();
    append_record(&mut out, PacketData { timestamp, value });
    assert(out@ =~= record_bytes(PacketData { timestamp, value }));
    out
}

/// One frame that carries every reading of `readings`, in order: `12 * K`
/// bytes for `K` readings.
pub fn encode_batch(readings: &Vec<PacketData>) -> (out: Vec<u8>)
    ensures
        out@ == frame_bytes(readings@),
        out@.len() == 12 * readings@.len(),
{
    let mut out: Vec<u8> = Vec::new();
    let mut i: usize = 0;
    while i < readings.len()
        invariant
            i <= readings.len(),
            out@ == frame_bytes(readings@.subrange(0, i as int)),
        decreases readings.len() - i,
    {
        append_record(&mut out, readings[i]);
        proof {
            let next = readings@.subrange(0, i + 1);
            assert(next.drop_last() =~= readings@.subrange(0, i as int));
            assert(next.last() == readings@[i as int]);
        }
        i = i + 1;
    }
    proof {
        assert(readings@.subrange(0, readings.len() as int) =~= readings@);
        lemma_frame_len(readings@);
    }
    out
}

/// The reading that `bytes` stand for: there is one exactly when `bytes` is
/// twelve bytes long.
pub fn decode_record(bytes: &[u8]) -> (out: Option<PacketData>)
    ensures
        out is Some <==> bytes@.len() == 12,
        out is Some ==> out->0 == record_of(bytes@),
{
    if bytes.len() != RECORD_LEN {
        return None;
    }
    Some(read_record(bytes, 0))
}

fn read_record(bytes: &[u8], at: usize) -> (r: PacketData)
    requires
        at + 12 <= bytes.len(),
    ensures
        r == record_of(bytes@.subrange(at as int, at + 12)),
{
    let lo: u32 = read_le4(bytes, at);
    let hi: u32 = read_le4(bytes, at + 4);
    let value: u32 = read_le4(bytes, at + 8);
    let u: u64 = (lo as u64) + 0x1_0000_0000u64 * (hi as u64);
    proof {
        let s = bytes@.subrange(at as int, at + 12);
        assert(s.subrange(0, 8).subrange(4, 8) =~= bytes@.subrange(at + 4, at + 8));
        assert(s.subrange(8, 12) =~= bytes@.subrange(at + 8, at + 12));
        assert(value_le4(s.subrange(0, 8)) == value_le4(bytes@.subrange(at as int, at + 4)));
    }
    PacketData { timestamp: to_signed(u), value }
}

/// The readings of a frame: there are some exactly when the frame is a whole
/// number of records, and then they are `len / 12`, in the frame's order.
pub fn decode_batch(bytes: &[u8]) -> (out: Option<Vec<PacketData>>)
    ensures
        out is Some <==> bytes@.len() % 12 == 0,
        out is Some ==> out->0@ == frame_records(bytes@),
{
    if bytes.len() % 12 != 0 {
        return None;
    }
    let count: usize = bytes.len() / 12;
    let mut out: Vec<PacketData> = Vec::new();
    let mut i: usize = 0;
    while i < count
        invariant
            12 * count == bytes@.len(),
            bytes@.len() <= usize::MAX,
            i <= count,
            out@ == frame_records(bytes@).subrange(0, i as int),
        decreases count - i,
    {
        let r: PacketData = read_record(bytes, 12 * i);
        out.push(r);
        i = i + 1;
        assert(out@ =~= frame_records(bytes@).subrange(0, i as int));
    }
    assert(out@ =~= frame_records(bytes@));
    Some(out)
}

/// A frame ready to be written to a duplex client connection.
#[derive(Clone, Debug, PartialEq, Eq)]
pub enum Frame {
    /// A binary frame of whole twelve-byte records.
    Binary(Vec<u8>),
    /// A text frame that holds the JSON text of a message.
    Text(String),
}

/// What a `Frame` holds.
pub enum FrameView {
    Binary(Seq<u8>),
    Text(Seq<char>),
}

impl View for Frame {
    type V = FrameView;

    open spec fn view(&self) -> FrameView {
        match *self {
            Frame::Binary(b) => FrameView::Binary(b@),
            Frame::Text(m) => FrameView::Text(m@),
        }
    }
}

/// The frame that a bus message goes out as: readings, single or batched, as
/// binary records; a signaling message as its JSON text.
pub open spec fn outbound_of(m: MessageView) -> FrameView {
    match m {
        MessageView::Batch { readings } => FrameView::Binary(frame_bytes(readings)),
        MessageView::Data { timestamp, value } => FrameView::Binary(
            record_bytes(PacketData { timestamp, value }),
        ),
        MessageView::Signal { .. } => FrameView::Text(message_text(m)),
    }
}

/// Selects the encoding of one outgoing bus message.
pub fn outbound_frame(msg: Message) -> (f: Frame)
    ensures
        f@ == outbound_of(msg@),
{
    match msg {
        Message::Batch { readings } => Frame::Binary(encode_batch(&readings)),
        Message::Data { timestamp, value } => Frame::Binary(encode_record(timestamp, value)),
        Message::Signal { sdp, candidate } => Frame::Text(
            encode_text(&Message::Signal { sdp, candidate }),
        ),
    }
}

/// What a decoded client frame puts back on the bus: a signaling message is
/// republished as it is, any other shape is not.
pub fn republished(parsed: Message) -> (out: Option<Message>)
    ensures
        out is Some <==> parsed@ is Signal,
        out is Some ==> out->0@ == parsed@,
{
    match parsed {
        Message::Signal { sdp, candidate } => Some(Message::Signal { sdp, candidate }),
        _ => None,
    }
}

} // verus!
