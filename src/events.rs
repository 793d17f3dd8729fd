//! Invalidation events: one per mutation, framed as JSON and published under the
//! resource id on the invalidation topic.
use vstd::prelude::*;
use crate::error::ApiError;

verus! {

/// `serde_json::Error`, the serializer's failure, carried through unopened.
#[verifier::external_type_specification]
#[verifier::external_body]
pub struct ExJsonError(serde_json::Error);

pub open spec fn hex_digit(d: int) -> char {
    seq!['0', '1', '2', '3', '4', '5', '6', '7', '8', '9', 'a', 'b', 'c', 'd', 'e', 'f'][d]
}

/// How JSON writes one character inside a string literal: a quote and a backslash
/// escaped, backspace, tab, line feed, form feed and carriage return by their short
/// escapes, any other character below `U+0020` as `\u00` and two lowercase hex
/// digits, every other character as it is.
pub open spec fn json_escape(c: char) -> Seq<char> {
    if c == '"' {
        seq!['\\', '"']
    } else if c == '\\' {
        seq!['\\', '\\']
    } else if c == '\u{8}' {
        seq!['\\', 'b']
    } else if c == '\t' {
        seq!['\\', 't']
    } else if c == '\n' {
        seq!['\\', 'n']
    } else if c == '\u{c}' {
        seq!['\\', 'f']
    } else if c == '\r' {
        seq!['\\', 'r']
    } else if (c as u32) < 0x20 {
        seq!['\\', 'u', '0', '0', hex_digit((c as u32) as int / 16), hex_digit((c as u32) as int % 16)]
    } else {
        seq![c]
    }
}

/// The escaped characters of a text, in order.
pub open spec fn json_chars(s: Seq<char>) -> Seq<char>
    decreases s.len(),
{
    if s.len() == 0 {
        Seq::empty()
    } else {
        json_chars(s.drop_last()) + json_escape(s.last())
    }
}

/// The JSON string literal of a text: its escaped characters between quotes.
pub open spec fn json_string(s: Seq<char>) -> Seq<char> {
    seq!['"'] + json_chars(s) + seq!['"']
}

/// Relies on `serde_json::to_string` applied to a `str`: it writes the text as one
/// JSON string literal, escaped as `json_escape` says, into a `Vec`, which cannot fail.
#[verifier::external_body]
fn quote_json(s: &str) -> (r: Result<String, serde_json::Error>)
    ensures
        r is Ok,
        r matches Ok(q) ==> q@ == json_string(s@),
{
    serde_json::to_string(s)
}

/// Relies on `chrono::Utc::now` and `DateTime::timestamp`: the current time in whole
/// seconds since the Unix epoch. Nothing is promised of its value.
#[verifier::external_body]
fn now_epoch_seconds() -> (r: i64) {
    chrono::Utc::now().timestamp()
}

pub open spec fn digit_char(d: int) -> char {
    seq!['0', '1', '2', '3', '4', '5', '6', '7', '8', '9'][d]
}

/// The decimal digits of a natural number, without leading zeros.
pub open spec fn nat_digits(n: nat) -> Seq<char>
    decreases n,
{
    if n < 10 {
        seq![digit_char(n as int)]
    } else {
        nat_digits(n / 10).push(digit_char((n % 10) as int))
    }
}

/// An integer in decimal, with a `-` where it is negative.
pub open spec fn decimal(i: int) -> Seq<char> {
    if i < 0 {
        seq!['-'] + nat_digits((-i) as nat)
    } else {
        nat_digits(i as nat)
    }
}

fn digit_str(d: u64) -> (r: &'static str)
    requires
        d < 10,
    ensures
        r@ == seq![digit_char(d as int)],
{
    proof {
        reveal_strlit("0");
        reveal_strlit("1");
        reveal_strlit("2");
        reveal_strlit("3");
        reveal_strlit("4");
        reveal_strlit("5");
        reveal_strlit("6");
        reveal_strlit("7");
        reveal_strlit("8");
        reveal_strlit("9");
    }
    let r = match d {
        0 => "0",
        1 => "1",
        2 => "2",
        3 => "3",
        4 => "4",
        5 => "5",
        6 => "6",
        7 => "7",
        8 => "8",
        _ => "9",
    };
    assert(r@ =~= seq![digit_char(d as int)]);
    r
}

fn push_digits(out: &mut String, n: u64)
    ensures
        final(out)@ == old(out)@ + nat_digits(n as nat),
    decreases n,
{
    if n >= 10 {
        push_digits(out, n / 10);
    }
    out.append(digit_str(n % 10));
    proof {
        if n >= 10 {
            assert(nat_digits(n as nat) == nat_digits((n / 10) as nat).push(digit_char((n % 10) as int)));
        }
    }
    assert(out@ =~= old(out)@ + nat_digits(n as nat));
}

/// Writes an integer in decimal.
pub fn decimal_string(i: i64) -> (r: String)
    ensures
        r@ == decimal(i as int),
{
    let mut r = String::new();
    if i < 0 {
        r.append("-");
        let magnitude: u64 = (0u64).wrapping_sub(i as u64);
        assert(magnitude == -(i as int)) by (bit_vector)
            requires
                i < 0,
                magnitude == (0u64).wrapping_sub(i as u64),
        ;
        push_digits(&mut r, magnitude);
        proof {
            reveal_strlit("-");
        }
        assert(r@ =~= decimal(i as int));
    } else {
        push_digits(&mut r, i as u64);
        assert(r@ =~= decimal(i as int));
    }
    r
}

/// The notice that a resource changed.
#[derive(Debug)]
pub struct CacheInvalidationEvent {
    pub event_type: String,
    pub resource_id: String,
    pub timestamp: i64,
}

/// The JSON body of an event, its fields in order, given the JSON literals of its
/// two strings.
pub open spec fn event_json(quoted_type: Seq<char>, quoted_id: Seq<char>, timestamp: int) -> Seq<char> {
    "{\"event_type\":"@ + quoted_type + ",\"resource_id\":"@ + quoted_id + ",\"timestamp\":"@ + decimal(timestamp)
        + "}"@
}

/// Frames the JSON body of an event from the JSON literals of its two strings.
pub fn frame_event(quoted_type: &str, quoted_id: &str, timestamp: i64) -> (r: String)
    ensures
        r@ == event_json(quoted_type@, quoted_id@, timestamp as int),
{
    let mut r = String::from_str("{\"event_type\":");
    r.append(quoted_type);
    r.append(",\"resource_id\":");
    r.append(quoted_id);
    r.append(",\"timestamp\":");
    let ts = decimal_string(timestamp);
    r.append(ts.as_str());
    r.append("}");
    r
}

impl CacheInvalidationEvent {
    /// The JSON body of the event: `{"event_type":…,"resource_id":…,"timestamp":…}`.
    pub fn payload(&self) -> (r: Result<String, ApiError>)
        ensures
            r is Ok,
            r matches Ok(p) ==> p@ == event_json(
                json_string(self.event_type@),
                json_string(self.resource_id@),
                self.timestamp as int,
            ),
    {
        let qt = match quote_json(self.event_type.as_str()) {
            Ok(q) => q,
            Err(_) => return Err(ApiError::Internal(String::from_str("event serialization failed"))),
        };
        let qi = match quote_json(self.resource_id.as_str()) {
            Ok(q) => q,
            Err(_) => return Err(ApiError::Internal(String::from_str("event serialization failed"))),
        };
        Ok(frame_event(qt.as_str(), qi.as_str(), self.timestamp))
    }
}

/// The seconds that a publish may take before it counts as failed.
pub const PUBLISH_TIMEOUT_SECONDS: u64 = 15;

/// A message to send on the event feed.
#[derive(Debug)]
pub struct PublishRequest {
    pub topic: String,
    pub key: String,
    pub payload: String,
    pub timeout_seconds: u64,
}

/// The message that announces an event: on the `cache-invalidation` topic, keyed by
/// the resource id, with the event's JSON body.
pub fn invalidation_message(event: &CacheInvalidationEvent) -> (r: Result<PublishRequest, ApiError>)
    ensures
        r is Ok,
        r matches Ok(m) ==> {
            &&& m.topic@ == "cache-invalidation"@
            &&& m.key@ == event.resource_id@
            &&& m.payload@ == event_json(
                json_string(event.event_type@),
                json_string(event.resource_id@),
                event.timestamp as int,
            )
            &&& m.timeout_seconds == PUBLISH_TIMEOUT_SECONDS
        },
{
    let payload = event.payload()?;
    Ok(PublishRequest {
        topic: String::from_str("cache-invalidation"),
        key: event.resource_id.clone(),
        payload,
        timeout_seconds: PUBLISH_TIMEOUT_SECONDS,
    })
}

/// The event for a mutation of `resource_id`, stamped with the current time.
pub fn invalidation_event(event_type: &str, resource_id: &str) -> (r: CacheInvalidationEvent)
    ensures
        r.event_type@ == event_type@,
        r.resource_id@ == resource_id@,
{
    CacheInvalidationEvent {
        event_type: String::from_str(event_type),
        resource_id: String::from_str(resource_id),
        timestamp: now_epoch_seconds(),
    }
}

} // verus!
