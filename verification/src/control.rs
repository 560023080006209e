//! Inbound control frames. A client sends text frames; the only meaningful
//! one is a JSON object with `action` set to `subscribe` and a string
//! `subject`. Decoding is permissive: every other shape, and every byte
//! string that is not JSON at all, classifies as `Unknown` — never an error,
//! never a reason to close the connection.
use vstd::prelude::*;

use crate::frames::lit_subscribe;
use crate::router::bytes_eq;

verus! {

/// What an inbound text frame asks for.
pub enum Control {
    /// A well-formed subscription request carrying its subject.
    Subscribe(Vec<u8>),
    /// Anything else: ignored, the connection stays open.
    Unknown,
}

/// The string value at a top-level key of the JSON object encoded by
/// `frame`, if `frame` is a JSON object with a string at that key; a pure
/// function of the frame bytes and the key.
pub uninterp spec fn spec_json_str_field(frame: Seq<u8>, key: Seq<char>) -> Option<Seq<u8>>;

/// The canonical re-encoding of the JSON value encoded by `payload`, if
/// `payload` is valid JSON; a pure function of the payload bytes.
pub uninterp spec fn spec_json_reencoded(payload: Seq<u8>) -> Option<Seq<u8>>;

/// Relies on `serde_json::from_slice::<Value>`, `Value::get` and
/// `Value::as_str`: together they read the string value at one top-level key
/// of a JSON object. The result is determined by the frame bytes and the key
/// alone (on duplicate keys `serde_json` keeps the last one); it is `None`
/// when the frame is not JSON, the value is not an object, the key is
/// absent, or the field is not a string.
#[verifier::external_body]
fn json_str_field(frame: &Vec<u8>, key: &str) -> (r: Option<Vec<u8>>)
    ensures
        r is Some <==> spec_json_str_field(frame@, key@) is Some,
        r matches Some(v) ==> spec_json_str_field(frame@, key@) == Some(v@),
{
    match serde_json::from_slice::<serde_json::Value>(frame.as_slice()) {
        Ok(v) => match v.get(key) {
            Some(field) => field.as_str().map(|s| s.as_bytes().to_vec()),
            None => None,
        },
        Err(_) => None,
    }
}

/// Relies on `serde_json::from_slice::<Value>` and `serde_json::to_vec`:
/// parse the payload and re-encode the parsed value in `serde_json`'s
/// canonical form. `None` exactly when the payload is not valid JSON
/// (re-encoding a `Value` itself cannot fail: every key of a JSON object is
/// a string). The result is determined by the payload bytes alone.
#[verifier::external_body]
pub(crate) fn reencode_json(payload: &Vec<u8>) -> (r: Option<Vec<u8>>)
    ensures
        r is Some <==> spec_json_reencoded(payload@) is Some,
        r matches Some(v) ==> spec_json_reencoded(payload@) == Some(v@),
{
    match serde_json::from_slice::<serde_json::Value>(payload.as_slice()) {
        Ok(v) => serde_json::to_vec(&v).ok(),
        Err(_) => None,
    }
}

/// The control reading of a frame: the subject of a well-formed subscribe
/// request, `None` for every other frame.
pub open spec fn spec_control(frame: Seq<u8>) -> Option<Seq<u8>> {
    if spec_json_str_field(frame, "action"@) == Some(lit_subscribe()) {
        spec_json_str_field(frame, "subject"@)
    } else {
        None
    }
}

/// The classification decision on the two extracted fields: subscribe
/// exactly when the action field is the word `subscribe` and a string
/// subject is present.
pub fn classify_control(action: Option<Vec<u8>>, subject: Option<Vec<u8>>) -> (c: Control)
    ensures
        ({
            let want = if action matches Some(a) && a@ == lit_subscribe() {
                subject
            } else {
                None::<Vec<u8>>
            };
            match c {
                Control::Subscribe(s) => want matches Some(w) && w@ == s@,
                Control::Unknown => want is None,
            }
        }),
{
    match action {
        Some(a) => {
            let mut word: Vec<u8> = Vec::new();
            crate::frames::push_subscribe(&mut word);
            if bytes_eq(&a, &word) {
                match subject {
                    Some(s) => Control::Subscribe(s),
                    None => Control::Unknown,
                }
            } else {
                Control::Unknown
            }
        },
        None => Control::Unknown,
    }
}

/// Decodes one inbound text frame into the control it asks for.
pub fn parse_control(frame: &Vec<u8>) -> (c: Control)
    ensures
        match c {
            Control::Subscribe(s) => spec_control(frame@) == Some(s@),
            Control::Unknown => spec_control(frame@) is None,
        },
{
    let action = json_str_field(frame, "action");
    let subject = json_str_field(frame, "subject");
    classify_control(action, subject)
}

} // verus!
