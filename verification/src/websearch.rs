//! The health check of a web search engine (SearXNG): the address asked, the
//! authorization sent, and what the engine's reply comes to.
use vstd::prelude::*;
use vstd::string::StringExecFns;
use crate::overlay::WebSearchCheckStatus;
use crate::text::{append_chars, chars_of, string_of};

verus! {

/// `s` without trailing `c` characters.
pub open spec fn trim_end_char(s: Seq<char>, c: char) -> Seq<char>
    decreases s.len(),
{
    if s.len() > 0 && s.last() == c { trim_end_char(s.drop_last(), c) } else { s }
}

/// The address asked: the engine's address without trailing slashes, then a JSON search
/// for "test".
pub open spec fn check_url(engine_url: Seq<char>) -> Seq<char> {
    trim_end_char(engine_url, '/') + "/search?q=test&format=json"@
}

/// Builds the address of the health check (see `check_url`).
pub fn health_check_url(engine_url: &str) -> (r: String)
    ensures
        r@ == check_url(engine_url@),
{
    let cs = chars_of(engine_url);
    let mut end: usize = cs.len();
    assert(cs@.take(end as int) == cs@);
    while end > 0 && cs[end - 1] == '/'
        invariant
            end <= cs.len(),
            trim_end_char(cs@, '/') == trim_end_char(cs@.take(end as int), '/'),
        decreases end,
    {
        assert(cs@.take(end as int).drop_last() == cs@.take(end - 1));
        end = end - 1;
    }
    let mut v: Vec<char> = Vec::new();
    let mut i: usize = 0;
    while i < end
        invariant
            i <= end <= cs.len(),
            v@ == cs@.take(i as int),
        decreases end - i,
    {
        v.push(cs[i]);
        i = i + 1;
        assert(v@ == cs@.take(i as int));
    }
    append_chars(&mut v, "/search?q=test&format=json");
    string_of(v.as_slice())
}

/// The `Authorization` header sent: a bearer token when an API key is set.
pub fn authorization(api_key: &str) -> (r: Option<String>)
    ensures
        api_key@.len() == 0 ==> r is None,
        api_key@.len() > 0 ==> (r matches Some(h) && h@ == "Bearer "@ + api_key@),
{
    if api_key.is_empty() {
        None
    } else {
        let mut h = String::from_str("Bearer ");
        h.append(api_key);
        Some(h)
    }
}

/// What `serde_json` reports when `text` is read as a JSON value: nothing when it is
/// valid JSON, else the error's message.
pub uninterp spec fn json_error_of(text: Seq<char>) -> Option<Seq<char>>;

/// Reads `text` as a `serde_json::Value` and returns the error's message, if any.
///
/// The contract names the result only: it is `json_error_of` of the text, a function of
/// the text alone. Which texts are valid JSON, and the wording of the messages, are
/// `serde_json`'s and are not stated.
#[verifier::external_body]
fn json_error(text: &str) -> (r: Option<String>)
    ensures
        r.deep_view() == json_error_of(text@),
{
    match text.parse::<serde_json::Value>() {
        Ok(_) => None,
        Err(e) => Some(e.to_string()),
    }
}

/// How far the request to the engine went.
pub enum HealthReply {
    /// The request could not be sent (the client's message).
    ConnectionFailed(String),
    /// The engine answered with an error status: its text (such as "404 Not Found") and
    /// its reason phrase, if it has one.
    BadStatus { status: String, reason: Option<String> },
    /// The body could not be read (the client's message).
    ReadFailed(String),
    /// The engine answered with a success status and this body.
    Body(String),
}

/// What the check reports for a reply: success for a valid JSON body, else the fault.
pub open spec fn health_outcome(reply: HealthReply) -> Result<(), Seq<char>> {
    match reply {
        HealthReply::ConnectionFailed(e) => Err("Connection failed: "@ + e@),
        HealthReply::BadStatus { status, reason } => Err(
            "HTTP "@ + status@ + ": "@ + match reason {
                Some(r) => r@,
                None => "Unknown"@,
            },
        ),
        HealthReply::ReadFailed(e) => Err("Failed to read response: "@ + e@),
        HealthReply::Body(b) => match json_error_of(b@) {
            None => Ok(()),
            Some(e) => Err("Invalid JSON response: "@ + e),
        },
    }
}

fn concat2(a: &str, b: &str) -> (r: String)
    ensures
        r@ == a@ + b@,
{
    let mut s = String::from_str(a);
    s.append(b);
    s
}

fn concat3(a: &str, b: &str, c: &str) -> (r: String)
    ensures
        r@ == a@ + b@ + c@,
{
    let mut s = String::from_str(a);
    s.append(b);
    s.append(c);
    s
}

/// The result of the health check for the engine's reply (see `health_outcome`).
pub fn check_web_search_health(reply: &HealthReply) -> (r: Result<(), String>)
    ensures
        match health_outcome(*reply) {
            Ok(()) => r is Ok,
            Err(m) => r matches Err(e) && e@ == m,
        },
{
    match reply {
        HealthReply::ConnectionFailed(e) => Err(concat2("Connection failed: ", e.as_str())),
        HealthReply::BadStatus { status, reason } => {
            let r = match reason {
                Some(r) => r.as_str(),
                None => "Unknown",
            };
            let mut s = concat3("HTTP ", status.as_str(), ": ");
            s.append(r);
            Err(s)
        },
        HealthReply::ReadFailed(e) => Err(concat2("Failed to read response: ", e.as_str())),
        HealthReply::Body(b) => match json_error(b.as_str()) {
            None => Ok(()),
            Some(e) => Err(concat2("Invalid JSON response: ", e.as_str())),
        },
    }
}

/// The status the web search settings show for a finished check.
pub fn check_status(result: Result<(), String>) -> (s: WebSearchCheckStatus)
    ensures
        match result {
            Ok(()) => s is Passed,
            Err(e) => s matches WebSearchCheckStatus::Failed(m) && m@ == e@,
        },
{
    match result {
        Ok(()) => WebSearchCheckStatus::Passed,
        Err(e) => WebSearchCheckStatus::Failed(e),
    }
}

} // verus!
