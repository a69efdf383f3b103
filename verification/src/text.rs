//! The text wire encoding: a bus message as one line of JSON, tagged with
//! its kind under `type` and carrying its content under `payload`.

use vstd::prelude::*;
use vstd::string::StringExecFns;
use crate::message::{Message, MessageView, PacketData};

verus! {

/// serde_json's `Error`. It is carried through as it is.
#[verifier::external_type_specification]
#[verifier::external_body]
pub struct ExJsonError(serde_json::Error);

/// One of the sixteen hexadecimal digits, in lower case.
pub open spec fn hex_char(d: int) -> char {
    "0123456789abcdef"@[d]
}

/// What one character of a JSON string literal is written as: the quote
/// and the backslash behind a backslash; backspace, tab, line feed, form
/// feed and carriage return as their letter behind a backslash; any other
/// character below the space as `\u00` and its two hexadecimal digits;
/// every other character as it is.
pub open spec fn escape_of(c: char) -> Seq<char> {
    if c == '"' {
        seq!['\\', '"']
    } else if c == '\\' {
        seq!['\\', '\\']
    } else if c == '\u{8}' {
        seq!['\\', 'b']
    } else if c == '\t' {
        seq!['\\', 't']
    } else if c == '\n' {
        seq!['\\', 'n']
    } else if c == '\u{c}' {
        seq!['\\', 'f']
    } else if c == '\r' {
        seq!['\\', 'r']
    } else if (c as int) < 0x20 {
        seq!['\\', 'u', '0', '0', hex_char(c as int / 16), hex_char(c as int % 16)]
    } else {
        seq![c]
    }
}

/// The characters of a text, each written as `escape_of` says.
pub open spec fn escaped(s: Seq<char>) -> Seq<char>
    decreases s.len(),
{
    if s.len() == 0 {
        Seq::empty()
    } else {
        escaped(s.drop_last()) + escape_of(s.last())
    }
}

/// The JSON string literal of a text: the escaped text between two double
/// quotes.
pub open spec fn json_text(s: Seq<char>) -> Seq<char> {
    seq!['"'] + escaped(s) + seq!['"']
}

/// Calls serde_json's `to_string` on a string slice. The call can fail only
/// through the serialised type's own code or through a map key that is no
/// string; a string slice has neither, so there is a result. It is the text
/// between double quotes, written run by run as it is but for the quote,
/// the backslash and the characters below the space, which serde_json's
/// escape table turns into the escapes that `escape_of` lists.
#[verifier::external_body]
fn json_quote(s: &str) -> (r: Result<String, serde_json::Error>)
    ensures
        r is Ok,
        r->Ok_0@ == json_text(s@),
{
    serde_json::to_string(s)
}

/// The character of one decimal digit.
pub open spec fn digit_char(d: int) -> char {
    "0123456789"@[d]
}

/// The decimal digits of a natural number, most significant first, with no
/// leading zero.
pub open spec fn digits(n: nat) -> Seq<char>
    decreases n,
{
    if n < 10 {
        seq![digit_char(n as int)]
    } else {
        digits(n / 10).push(digit_char((n % 10) as int))
    }
}

/// The decimal text of an integer: a minus sign for a negative number, then
/// the digits of its magnitude.
pub open spec fn decimal(i: int) -> Seq<char> {
    if i < 0 {
        seq!['-'] + digits((-i) as nat)
    } else {
        digits(i as nat)
    }
}

/// The JSON object of one reading.
pub open spec fn reading_text(r: PacketData) -> Seq<char> {
    "{\"timestamp\":"@ + decimal(r.timestamp as int) + ",\"value\":"@ + decimal(r.value as int)
        + "}"@
}

/// The JSON objects of a sequence of readings, in order, with a comma
/// between each two.
pub open spec fn readings_text(rs: Seq<PacketData>) -> Seq<char>
    decreases rs.len(),
{
    if rs.len() == 0 {
        Seq::empty()
    } else if rs.len() == 1 {
        reading_text(rs[0])
    } else {
        readings_text(rs.drop_last()) + ","@ + reading_text(rs.last())
    }
}

/// The JSON of a candidate that may be absent: its literal, or `null`.
pub open spec fn candidate_text(c: Option<Seq<char>>) -> Seq<char> {
    match c {
        Some(t) => json_text(t),
        None => "null"@,
    }
}

/// The JSON text of a message.
pub open spec fn message_text(m: MessageView) -> Seq<char> {
    match m {
        MessageView::Signal { sdp, candidate } => "{\"type\":\"Signal\",\"payload\":{\"sdp\":"@
            + json_text(sdp) + ",\"candidate\":"@ + candidate_text(candidate) + "}}"@,
        MessageView::Data { timestamp, value } => "{\"type\":\"Data\",\"payload\":"@ + reading_text(
            PacketData { timestamp, value },
        ) + "}"@,
        MessageView::Batch { readings } => "{\"type\":\"Batch\",\"payload\":{\"readings\":["@
            + readings_text(readings) + "]}}"@,
    }
}

fn digit_str(d: u64) -> (s: &'static str)
    requires
        d < 10,
    ensures
        s@ == seq![digit_char(d as int)],
{
    proof {
        reveal_strlit("0123456789");
        reveal_strlit("0");
        reveal_strlit("1");
        reveal_strlit("2");
        reveal_strlit("3");
        reveal_strlit("4");
        reveal_strlit("5");
        reveal_strlit("6");
        reveal_strlit("7");
        reveal_strlit("8");
        reveal_strlit("9");
    }
    let s: &'static str = if d == 0 {
        "0"
    } else if d == 1 {
        "1"
    } else if d == 2 {
        "2"
    } else if d == 3 {
        "3"
    } else if d == 4 {
        "4"
    } else if d == 5 {
        "5"
    } else if d == 6 {
        "6"
    } else if d == 7 {
        "7"
    } else if d == 8 {
        "8"
    } else {
        "9"
    };
    assert(s@ =~= seq![digit_char(d as int)]);
    s
}

fn append_digits(out: &mut String, n: u64)
    ensures
        final(out)@ == old(out)@ + digits(n as nat),
    decreases n,
{
    if n >= 10 {
        append_digits(out, n / 10);
    }
    out.append(digit_str(n % 10));
    assert(out@ =~= old(out)@ + digits(n as nat));
}

/// Appends the decimal text of `i` to `out`.
pub fn append_decimal(out: &mut String, i: i64)
    ensures
        final(out)@ == old(out)@ + decimal(i as int),
{
    if i < 0 {
        let magnitude: u64 = ((-(i + 1)) as u64) + 1;
        out.append("-");
        append_digits(out, magnitude);
        proof {
            reveal_strlit("-");
            assert(out@ =~= old(out)@ + decimal(i as int));
        }
    } else {
        append_digits(out, i as u64);
    }
}

fn append_reading(out: &mut String, r: PacketData)
    ensures
        final(out)@ == old(out)@ + reading_text(r),
{
    out.append("{\"timestamp\":");
    append_decimal(out, r.timestamp);
    out.append(",\"value\":");
    append_decimal(out, r.value as i64);
    out.append("}");
    assert(out@ =~= old(out)@ + reading_text(r));
}

fn append_readings(out: &mut String, readings: &Vec<PacketData>)
    ensures
        final(out)@ == old(out)@ + readings_text(readings@),
{
    let mut i: usize = 0;
    assert(out@ =~= old(out)@ + readings_text(readings@.subrange(0, 0)));
    while i < readings.len()
        invariant
            i <= readings.len(),
            out@ == old(out)@ + readings_text(readings@.subrange(0, i as int)),
        decreases readings.len() - i,
    {
        let ghost before = readings@.subrange(0, i as int);
        let ghost next = readings@.subrange(0, i + 1);
        if i > 0 {
            out.append(",");
        }
        append_reading(out, readings[i]);
        proof {
            assert(next.drop_last() =~= before);
            assert(next.last() == readings@[i as int]);
            assert(out@ =~= old(out)@ + readings_text(next));
        }
        i = i + 1;
    }
    assert(readings@.subrange(0, readings.len() as int) =~= readings@);
}

fn append_quoted(out: &mut String, s: &str)
    ensures
        final(out)@ == old(out)@ + json_text(s@),
{
    match json_quote(s) {
        Ok(q) => {
            out.append(q.as_str());
        },
        Err(_) => {},
    }
}

/// The text frame of a message: one line of JSON with the message's kind
/// under `type` and its content under `payload`.
pub fn encode_text(msg: &Message) -> (out: String)
    ensures
        out@ == message_text(msg@),
{
    let mut out = String::new();
    match msg {
        Message::Signal { sdp, candidate } => {
            out.append("{\"type\":\"Signal\",\"payload\":{\"sdp\":");
            append_quoted(&mut out, sdp.as_str());
            out.append(",\"candidate\":");
            match candidate {
                Some(c) => {
                    append_quoted(&mut out, c.as_str());
                },
                None => {
                    out.append("null");
                },
            }
            out.append("}}");
            assert(out@ =~= message_text(msg@));
        },
        Message::Data { timestamp, value } => {
            out.append("{\"type\":\"Data\",\"payload\":");
            append_reading(&mut out, PacketData { timestamp: *timestamp, value: *value });
            out.append("}");
            assert(out@ =~= message_text(msg@));
        },
        Message::Batch { readings } => {
            out.append("{\"type\":\"Batch\",\"payload\":{\"readings\":[");
            append_readings(&mut out, readings);
            out.append("]}}");
            assert(out@ =~= message_text(msg@));
        },
    }
    out
}

} // verus!
