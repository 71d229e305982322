//! The decisions of one connection: from what a single read brought to what
//! is sent back.
use vstd::prelude::*;
use vstd::string::*;
use crate::body::{body_of, extract_http_body};
use crate::envelope::{envelope_json_of, Envelope};
use crate::http::{http_response, http_response_of};
use crate::reply::{reply_of, respond};

verus! {

/// How many bytes one read of a connection takes at most.
pub const READ_BUFFER_SIZE: usize = 2048;

/// What `String::from_utf8_lossy` makes of a byte sequence.
pub uninterp spec fn lossy_utf8_of(b: Seq<u8>) -> Seq<char>;

/// Relies on `String::from_utf8_lossy`: the text of the bytes, with each
/// invalid sequence replaced by U+FFFD; it depends on the bytes alone.
#[verifier::external_body]
fn decode_lossy(b: &[u8]) -> (r: String)
    ensures
        r@ == lossy_utf8_of(b@),
{
    String::from_utf8_lossy(b).into_owned()
}

/// Whether `char::is_whitespace` holds of a character (Unicode `White_Space`).
pub uninterp spec fn is_space(c: char) -> bool;

/// Relies on `char::is_whitespace`, which depends on the character alone.
#[verifier::external_body]
fn is_whitespace(c: char) -> (r: bool)
    ensures
        r == is_space(c),
{
    c.is_whitespace()
}

/// `s` without its leading white space.
pub open spec fn trim_start_of(s: Seq<char>) -> Seq<char>
    decreases s.len(),
{
    if s.len() > 0 && is_space(s[0]) {
        trim_start_of(s.drop_first())
    } else {
        s
    }
}

/// `s` without its trailing white space.
pub open spec fn trim_end_of(s: Seq<char>) -> Seq<char>
    decreases s.len(),
{
    if s.len() > 0 && is_space(s.last()) {
        trim_end_of(s.drop_last())
    } else {
        s
    }
}

/// `s` without leading and trailing white space, as `str::trim` gives it.
pub open spec fn trimmed(s: Seq<char>) -> Seq<char> {
    trim_end_of(trim_start_of(s))
}

/// `s` with leading and trailing white space removed.
pub fn trim(s: &str) -> (r: String)
    ensures
        r@ == trimmed(s@),
{
    let n = s.unicode_len();
    let mut i: usize = 0;
    assert(s@.subrange(0, n as int) =~= s@);
    while i < n && is_whitespace(s.get_char(i))
        invariant
            n == s@.len(),
            i <= n,
            trim_start_of(s@.subrange(i as int, n as int)) == trim_start_of(s@),
        decreases n - i,
    {
        assert(s@.subrange(i as int, n as int).drop_first() =~= s@.subrange(i + 1, n as int));
        i = i + 1;
    }
    assert(trim_start_of(s@) == s@.subrange(i as int, n as int)) by {
        if i < n {
            assert(s@.subrange(i as int, n as int)[0] == s@[i as int]);
        }
    }
    let mut j: usize = n;
    while j > i && is_whitespace(s.get_char(j - 1))
        invariant
            n == s@.len(),
            i <= j <= n,
            trim_end_of(s@.subrange(i as int, j as int)) == trimmed(s@),
        decreases j,
    {
        assert(s@.subrange(i as int, j as int).drop_last() =~= s@.subrange(i as int, j - 1));
        j = j - 1;
    }
    let piece = s.substring_char(i, j);
    piece.to_string()
}

/// The message of a request: its body, trimmed.
pub open spec fn message_of(request: Seq<char>) -> Seq<char> {
    trimmed(body_of(request))
}

/// The message carried by a request.
pub fn request_message(request: &str) -> (r: String)
    ensures
        r@ == message_of(request@),
{
    let body = extract_http_body(request);
    trim(body.as_str())
}

/// The full HTTP response to `request`, stamped with `timestamp`.
pub open spec fn response_of(request: Seq<char>, timestamp: Seq<char>) -> Seq<char> {
    let m = message_of(request);
    http_response_of(envelope_json_of(m, reply_of(m), timestamp))
}

/// The HTTP response to a request, stamped with the given time.
pub fn build_response(request: &str, timestamp: &str) -> (r: String)
    ensures
        r@ == response_of(request@, timestamp@),
{
    let message = request_message(request);
    let output = respond(message.as_str());
    let envelope = Envelope::new(message.as_str(), output.as_str(), timestamp);
    let json = envelope.to_json();
    http_response(json.as_str())
}

/// The result of the single read made on a connection.
pub enum ReadOutcome {
    /// The bytes read; none when the peer closed before sending anything.
    Received(Vec<u8>),
    /// The read failed.
    Failed,
}

/// What the connection's owner does next.
pub enum Action {
    /// The peer disconnected: log it and send nothing.
    Disconnected,
    /// The read failed: log it and drop the connection.
    Abandon,
    /// Write these bytes' text in full, then close.
    Send(String),
}

/// The action for a read outcome, the response stamped with `timestamp`.
pub fn next_action(outcome: &ReadOutcome, timestamp: &str) -> (r: Action)
    ensures
        match outcome {
            ReadOutcome::Received(b) => if b@.len() == 0 {
                r is Disconnected
            } else {
                r matches Action::Send(s) && s@ == response_of(lossy_utf8_of(b@), timestamp@)
            },
            ReadOutcome::Failed => r is Abandon,
        },
{
    match outcome {
        ReadOutcome::Received(b) => {
            if b.len() == 0 {
                Action::Disconnected
            } else {
                let request = decode_lossy(b.as_slice());
                Action::Send(build_response(request.as_str(), timestamp))
            }
        },
        ReadOutcome::Failed => Action::Abandon,
    }
}

/// Relies on `chrono::Utc::now` and `DateTime::to_rfc3339`: the current UTC
/// time in RFC 3339 form. It depends on the clock, so nothing is stated of it.
#[verifier::external_body]
fn utc_now_rfc3339() -> (r: String) {
    chrono::Utc::now().to_rfc3339()
}

/// The action for a read outcome, a response being stamped with the current
/// time.
pub fn handle_read(outcome: &ReadOutcome) -> (r: Action)
    ensures
        match outcome {
            ReadOutcome::Received(b) => if b@.len() == 0 {
                r is Disconnected
            } else {
                r matches Action::Send(s) && exists|t: Seq<char>|
                    s@ == response_of(lossy_utf8_of(b@), t)
            },
            ReadOutcome::Failed => r is Abandon,
        },
{
    let now = utc_now_rfc3339();
    next_action(outcome, now.as_str())
}

} // verus!
