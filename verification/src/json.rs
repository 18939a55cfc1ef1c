//! Framing of the rich-presence wire payload: a JSON envelope
//! `{cmd, args: {pid, activity}, nonce}` whose free-form fields are quoted
//! as JSON string literals.

use vstd::prelude::*;
use vstd::string::StringExecFns;

verus! {

/// The JSON string literal (quotes and escapes included) that encodes a text.
pub uninterp spec fn json_string_of(s: Seq<char>) -> Seq<char>;

/// The decimal representation of a natural number, most significant digit
/// first, with no sign and no padding.
pub open spec fn dec_of(n: nat) -> Seq<char>
    decreases n,
{
    if n < 10 {
        seq![dec_digit(n)]
    } else {
        dec_of(n / 10) + seq![dec_digit(n % 10)]
    }
}

/// The digit character for a value below ten.
pub open spec fn dec_digit(d: nat) -> char {
    if d == 0 {
        '0'
    } else if d == 1 {
        '1'
    } else if d == 2 {
        '2'
    } else if d == 3 {
        '3'
    } else if d == 4 {
        '4'
    } else if d == 5 {
        '5'
    } else if d == 6 {
        '6'
    } else if d == 7 {
        '7'
    } else if d == 8 {
        '8'
    } else {
        '9'
    }
}

/// The activity object: fixed type and assets, normalized details and state,
/// one static call-to-action button, and a start timestamp only when playing.
pub open spec fn activity_json(
    details: Seq<char>,
    state: Seq<char>,
    image: Seq<char>,
    start: Option<u64>,
) -> Seq<char> {
    let base = "{\"type\":2,\"details\":"@ + json_string_of(details) + ",\"state\":"@
        + json_string_of(state) + ",\"assets\":{\"large_image\":"@ + json_string_of(image)
        + ",\"large_text\":\"Music On Monochrome\"},\"buttons\":[{\"label\":\"Listen On Monochrome\",\"url\":\"https://mono.squid.wtf\"}]"@;
    match start {
        Some(t) => base + ",\"timestamps\":{\"start\":"@ + dec_of(t as nat) + "}}"@,
        None => base + "}"@,
    }
}

/// The envelope sent over the IPC transport: the `SET_ACTIVITY` command, the
/// sending process id, the activity object, and the epoch-millisecond nonce.
pub open spec fn envelope_json(pid: u64, activity: Seq<char>, nonce_millis: u64) -> Seq<char> {
    "{\"cmd\":\"SET_ACTIVITY\",\"args\":{\"pid\":"@ + dec_of(pid as nat) + ",\"activity\":"@
        + activity + "},\"nonce\":\""@ + dec_of(nonce_millis as nat) + "\"}"@
}

/// Relies on serde_json::to_string on a string slice: the escaped JSON string
/// literal for exactly those characters; serializing a valid string slice
/// cannot fail.
#[verifier::external_body]
fn json_quote(s: &str) -> (r: String)
    ensures
        r@ == json_string_of(s@),
{
    match serde_json::to_string(s) {
        Ok(q) => q,
        Err(_) => String::new(),
    }
}

/// Relies on u64's Display implementation: plain decimal digits, no sign, no
/// padding.
#[verifier::external_body]
fn decimal_string(n: u64) -> (r: String)
    ensures
        r@ == dec_of(n as nat),
{
    n.to_string()
}

/// Renders the activity object for the given normalized fields.
pub fn render_activity_json(
    details: &String,
    state: &String,
    image: &String,
    start: Option<u64>,
) -> (r: String)
    ensures
        r@ == activity_json(details@, state@, image@, start),
{
    let mut r = String::from_str("{\"type\":2,\"details\":");
    r.append(json_quote(details.as_str()).as_str());
    r.append(",\"state\":");
    r.append(json_quote(state.as_str()).as_str());
    r.append(",\"assets\":{\"large_image\":");
    r.append(json_quote(image.as_str()).as_str());
    r.append(
        ",\"large_text\":\"Music On Monochrome\"},\"buttons\":[{\"label\":\"Listen On Monochrome\",\"url\":\"https://mono.squid.wtf\"}]",
    );
    match start {
        Some(t) => {
            r.append(",\"timestamps\":{\"start\":");
            r.append(decimal_string(t).as_str());
            r.append("}}");
        },
        None => {
            r.append("}");
        },
    }
    r
}

/// Renders the full envelope for a rendered activity object.
pub fn render_envelope_json(pid: u64, activity: &String, nonce_millis: u64) -> (r: String)
    ensures
        r@ == envelope_json(pid, activity@, nonce_millis),
{
    let mut r = String::from_str("{\"cmd\":\"SET_ACTIVITY\",\"args\":{\"pid\":");
    r.append(decimal_string(pid).as_str());
    r.append(",\"activity\":");
    r.append(activity.as_str());
    r.append("},\"nonce\":\"");
    r.append(decimal_string(nonce_millis).as_str());
    r.append("\"}");
    r
}

} // verus!
