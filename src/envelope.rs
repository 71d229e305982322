//! The response envelope: the trimmed input, the reply and a timestamp,
//! written as a compact JSON object.
use vstd::prelude::*;
use vstd::string::*;

verus! {

/// What `serde_json` writes for a JSON string holding `s`, quotes included.
pub uninterp spec fn json_string_of(s: Seq<char>) -> Seq<char>;

/// Relies on `serde_json::Value::String` displayed through `Display`: the
/// compact JSON text of a string, which depends on its characters alone.
#[verifier::external_body]
fn json_string(s: &str) -> (r: String)
    ensures
        r@ == json_string_of(s@),
{
    serde_json::Value::String(s.to_string()).to_string()
}

/// The record returned for one request.
pub struct Envelope {
    pub input: String,
    pub output: String,
    pub timestamp: String,
}

/// The compact JSON document of an envelope. Keys stand in sorted order, as
/// `serde_json` writes an object.
pub open spec fn envelope_json_of(input: Seq<char>, output: Seq<char>, timestamp: Seq<char>) -> Seq<
    char,
> {
    "{\"input\":"@ + json_string_of(input) + ",\"output\":"@ + json_string_of(output)
        + ",\"timestamp\":"@ + json_string_of(timestamp) + "}"@
}

impl Envelope {
    /// An envelope holding copies of the three texts.
    pub fn new(input: &str, output: &str, timestamp: &str) -> (r: Envelope)
        ensures
            r.input@ == input@,
            r.output@ == output@,
            r.timestamp@ == timestamp@,
    {
        Envelope {
            input: String::from_str(input),
            output: String::from_str(output),
            timestamp: String::from_str(timestamp),
        }
    }

    /// The envelope as a compact JSON document.
    pub fn to_json(&self) -> (r: String)
        ensures
            r@ == envelope_json_of(self.input@, self.output@, self.timestamp@),
    {
        let r = String::from_str("{\"input\":");
        let r = r.concat(json_string(self.input.as_str()).as_str());
        let r = r.concat(",\"output\":");
        let r = r.concat(json_string(self.output.as_str()).as_str());
        let r = r.concat(",\"timestamp\":");
        let r = r.concat(json_string(self.timestamp.as_str()).as_str());
        r.concat("}")
    }
}

} // verus!
