//! The request that reports a presence transition to the home-automation
//! server: where it goes, how it authenticates, and its JSON body.
use vstd::prelude::*;
use crate::motion::{MotionStatus, Transition};
use crate::notify::{decimal, decimal_text};

verus! {

/// `s` without the `c` characters at its end.
pub open spec fn trim_end_char(s: Seq<char>, c: char) -> Seq<char>
    decreases s.len(),
{
    if s.len() > 0 && s.last() == c {
        trim_end_char(s.drop_last(), c)
    } else {
        s
    }
}

/// Relies on `str::trim_end_matches` with a `char` pattern: every trailing
/// occurrence of the character is removed, nothing else.
#[verifier::external_body]
fn trim_trailing_slashes(s: &str) -> (r: &str)
    ensures
        r@ == trim_end_char(s@, '/'),
{
    s.trim_end_matches('/')
}

/// The state endpoint of the motion sensor under the server's base URL.
pub open spec fn sensor_url(base_url: Seq<char>) -> Seq<char> {
    trim_end_char(base_url, '/') + "/api/states/sensor.pushel_motion"@
}

/// The value of the `Authorization` header for an API key.
pub open spec fn bearer(api_key: Seq<char>) -> Seq<char> {
    "Bearer "@ + api_key
}

/// The JSON body that reports `status` as of `timestamp` (Unix seconds).
pub open spec fn presence_body(status: MotionStatus, timestamp: nat) -> Seq<char> {
    "{\"state\":\""@ + status.name() + "\",\"attributes\":{\"friendly_name\":\"Pushel Motion Detection\",\"last_update\":"@
        + decimal(timestamp) + ",\"device_class\":\"motion\"}}"@
}

/// An HTTP `POST` to send: to `url`, with `authorization` as the
/// `Authorization` header and `body` as JSON.
pub struct PushRequest {
    pub url: String,
    pub authorization: String,
    pub body: String,
}

/// The request that reports `status` as of `timestamp` to the server at
/// `base_url`.
pub fn push_request(base_url: &str, api_key: &str, status: MotionStatus, timestamp: u64) -> (r:
    PushRequest)
    ensures
        r.url@ == sensor_url(base_url@),
        r.authorization@ == bearer(api_key@),
        r.body@ == presence_body(status, timestamp as nat),
{
    let url = String::from_str(trim_trailing_slashes(base_url)).concat(
        "/api/states/sensor.pushel_motion",
    );
    let authorization = String::from_str("Bearer ").concat(api_key);
    let body = String::from_str("{\"state\":\"").concat(status.as_str()).concat(
        "\",\"attributes\":{\"friendly_name\":\"Pushel Motion Detection\",\"last_update\":",
    ).concat(decimal_text(timestamp).as_str()).concat(",\"device_class\":\"motion\"}}");
    PushRequest { url, authorization, body }
}

/// The request to send for a presence update: one exactly when the state
/// changed and both the server's URL and an API key are configured.
pub fn presence_push(
    transition: Option<Transition>,
    base_url: Option<&str>,
    api_key: Option<&str>,
    timestamp: u64,
) -> (r: Option<PushRequest>)
    ensures
        r is Some <==> (transition is Some && base_url is Some && api_key is Some),
        r is Some ==> ({
            let req = r->0;
            &&& req.url@ == sensor_url(base_url->0@)
            &&& req.authorization@ == bearer(api_key->0@)
            &&& req.body@ == presence_body(transition->0.to, timestamp as nat)
        }),
{
    match (transition, base_url, api_key) {
        (Some(t), Some(url), Some(key)) => Some(push_request(url, key, t.to, timestamp)),
        _ => None,
    }
}

} // verus!
