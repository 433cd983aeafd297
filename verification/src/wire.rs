//! The replies as the caller's front end receives them: a payload as the text
//! of one JSON object, an error as its message.

use crate::report::{Ack, Payload};
use vstd::prelude::*;
use vstd::string::StringExecFns;

verus! {

/// The compact JSON text that `serde_json` writes for the object into which
/// first each `flag_keys[i]` is inserted with the boolean `flags[i]`, then
/// each `text_keys[i]` with the string `texts[i]`.
pub uninterp spec fn json_object_text(
    flag_keys: Seq<Seq<char>>,
    flags: Seq<bool>,
    text_keys: Seq<Seq<char>>,
    texts: Seq<Seq<char>>,
) -> Seq<char>;

/// Builds a `serde_json::Map` by `Map::insert`, first of each flag under its
/// key as a `Value::Bool`, then of each text under its key as a
/// `Value::String`, and renders it as a `Value::Object` by `to_string`.
///
/// The contract claims only that the text is determined by the keys and
/// values in the order given; it says nothing of what the text holds.
#[verifier::external_body]
fn json_object(
    flag_keys: &Vec<String>,
    flags: &Vec<bool>,
    text_keys: &Vec<String>,
    texts: &Vec<String>,
) -> (json: String)
    requires
        flag_keys.len() == flags.len(),
        text_keys.len() == texts.len(),
    ensures
        json@ == json_object_text(
            flag_keys.deep_view(),
            flags@,
            text_keys.deep_view(),
            texts.deep_view(),
        ),
{
    let mut members = serde_json::Map::new();
    for (key, flag) in flag_keys.iter().zip(flags.iter()) {
        members.insert(key.clone(), serde_json::Value::Bool(*flag));
    }
    for (key, text) in text_keys.iter().zip(texts.iter()) {
        members.insert(key.clone(), serde_json::Value::String(text.clone()));
    }
    serde_json::Value::Object(members).to_string()
}

/// The keys of the report of `initialize`, in the order of its flags.
pub open spec fn init_keys() -> Seq<Seq<char>> {
    seq!["hostsModified"@, "proxyRunning"@, "certInstalled"@]
}

/// The keys of the report of `status`, in the order of its flags.
pub open spec fn status_keys() -> Seq<Seq<char>> {
    seq!["hostsModified"@, "proxyRunning"@, "processSupervised"@]
}

/// The JSON text of `payload`: a report as an object of its flags, an
/// acknowledgment as `ok: true` with its message.
pub open spec fn payload_text(payload: Payload) -> Seq<char> {
    match payload {
        Payload::Initialized(report) => json_object_text(
            init_keys(),
            seq![report.hosts_modified, report.proxy_running, report.cert_installed],
            Seq::empty(),
            Seq::empty(),
        ),
        Payload::Status(report) => json_object_text(
            status_keys(),
            seq![report.hosts_modified, report.proxy_running, report.process_supervised],
            Seq::empty(),
            Seq::empty(),
        ),
        Payload::Done(ack) => json_object_text(
            seq!["ok"@],
            seq![true],
            seq!["message"@],
            seq![ack.text()],
        ),
    }
}

/// What the front end receives for `reply`: the JSON text of the payload, or
/// the error message as it is.
pub open spec fn reply_text(reply: Result<Payload, Seq<char>>) -> Result<Seq<char>, Seq<char>> {
    match reply {
        Ok(payload) => Ok(payload_text(payload)),
        Err(message) => Err(message),
    }
}

/// The three strings `a`, `b`, `c` as a vector.
fn keys3(a: &str, b: &str, c: &str) -> (keys: Vec<String>)
    ensures
        keys.len() == 3,
        keys.deep_view() == seq![a@, b@, c@],
{
    let mut keys: Vec<String> = Vec::new();
    keys.push(String::from_str(a));
    keys.push(String::from_str(b));
    keys.push(String::from_str(c));
    assert(keys.deep_view() =~= seq![a@, b@, c@]);
    keys
}

/// The three flags `a`, `b`, `c` as a vector.
fn flags3(a: bool, b: bool, c: bool) -> (flags: Vec<bool>)
    ensures
        flags.len() == 3,
        flags@ == seq![a, b, c],
{
    let mut flags: Vec<bool> = Vec::new();
    flags.push(a);
    flags.push(b);
    flags.push(c);
    assert(flags@ =~= seq![a, b, c]);
    flags
}

/// Renders `payload` as the text of one JSON object.
pub fn render(payload: &Payload) -> (json: String)
    ensures
        json@ == payload_text(*payload),
{
    let none: Vec<String> = Vec::new();
    assert(none.deep_view() =~= Seq::<Seq<char>>::empty());
    match payload {
        Payload::Initialized(report) => json_object(
            &keys3("hostsModified", "proxyRunning", "certInstalled"),
            &flags3(report.hosts_modified, report.proxy_running, report.cert_installed),
            &none,
            &none,
        ),
        Payload::Status(report) => json_object(
            &keys3("hostsModified", "proxyRunning", "processSupervised"),
            &flags3(report.hosts_modified, report.proxy_running, report.process_supervised),
            &none,
            &none,
        ),
        Payload::Done(ack) => {
            let mut flag_keys: Vec<String> = Vec::new();
            flag_keys.push(String::from_str("ok"));
            let mut flags: Vec<bool> = Vec::new();
            flags.push(true);
            let mut text_keys: Vec<String> = Vec::new();
            text_keys.push(String::from_str("message"));
            let mut texts: Vec<String> = Vec::new();
            texts.push(String::from_str(ack.message()));
            assert(flag_keys.deep_view() =~= seq!["ok"@]);
            assert(flags@ =~= seq![true]);
            assert(text_keys.deep_view() =~= seq!["message"@]);
            assert(texts.deep_view() =~= seq![ack.text()]);
            json_object(&flag_keys, &flags, &text_keys, &texts)
        },
    }
}

/// Renders the end of an operation for the front end: the payload as JSON
/// text, an error as its message.
pub fn render_reply(reply: Result<Payload, String>) -> (answer: Result<String, String>)
    ensures
        match reply {
            Ok(payload) => answer matches Ok(json) && json@ == payload_text(payload),
            Err(message) => answer matches Err(text) && text@ == message@,
        },
{
    match reply {
        Ok(payload) => Ok(render(&payload)),
        Err(message) => Err(message),
    }
}

} // verus!
