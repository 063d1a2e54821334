//! Recognition of one short recording: where the audio is posted and what
//! is read from the answer.

use crate::json::{json_as_string, json_get, json_member, json_parsed, json_string, parse_json};
use crate::rest::{parse_url, parsed_url, Method, RestCall};
use vstd::prelude::*;

verus! {

/// Where a short recording is posted: the general model, linear PCM, 8 kHz.
pub const SHORT_STT_URL: &'static str =
    "https://stt.api.cloud.yandex.net/speech/v1/stt:recognize?topic=general:rc&format=lpcm&sampleRateHertz=8000";

/// The text of the member `key` of the JSON object that `body` holds: there
/// is one if `body` is JSON, has a member of that name, and that member is
/// a string.
pub open spec fn json_text_member(body: Seq<u8>, key: Seq<char>) -> Option<Seq<char>> {
    match json_parsed(body) {
        Some(value) => match json_member(value, key) {
            Some(member) => json_string(member),
            None => None,
        },
        None => None,
    }
}

/// Reads the text of the member `key` from the JSON in `body`.
pub fn read_json_text_member(body: &[u8], key: &str) -> (text: Option<String>)
    ensures
        match text {
            Some(text) => json_text_member(body@, key@) == Some(text@),
            None => json_text_member(body@, key@) is None,
        },
{
    let value = match parse_json(body) {
        Some(value) => value,
        None => {
            return None;
        },
    };
    match json_get(&value, key) {
        Some(member) => json_as_string(member),
        None => None,
    }
}

/// The call that recognizes a short recording: a `POST` of the audio to
/// [`SHORT_STT_URL`]. There is none where that address does not parse.
pub fn recognize_request() -> (call: Option<RestCall>)
    ensures
        match call {
            Some(call) => call.method == Method::Post && parsed_url(SHORT_STT_URL@) == Some(
                call.url@,
            ),
            None => parsed_url(SHORT_STT_URL@) is None,
        },
{
    RestCall::new(Method::Post, parse_url(SHORT_STT_URL))
}

/// What was recognized, read from the body of the answer: the text of its
/// member `result`, if it has one.
pub fn recognized_text(body: &[u8]) -> (text: Option<String>)
    ensures
        match text {
            Some(text) => json_text_member(body@, "result"@) == Some(text@),
            None => json_text_member(body@, "result"@) is None,
        },
{
    read_json_text_member(body, "result")
}

} // verus!
