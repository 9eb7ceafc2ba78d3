//! Verdicts of an engine API on submitted attributes.

use vstd::prelude::*;

verus! {

/// What the JSON body `body` holds at `/result/status`: `None` when the body
/// is not JSON, `Some(None)` when no string stands there.
pub uninterp spec fn json_result_status(body: Seq<u8>) -> Option<Option<Seq<char>>>;

/// Why the engine API's answer is not a verdict.
#[derive(Clone, Copy, Debug, PartialEq, Eq, Structural)]
pub enum EngineError {
    /// The response body is not JSON.
    MalformedBody,
    /// The engine answered with an HTTP status other than 200.
    HttpStatus(u16),
}

/// The HTTP status of a successful answer.
pub const HTTP_OK: u16 = 200;

/// The characters of an optional string.
pub open spec fn opt_str_view(o: Option<String>) -> Option<Seq<char>> {
    match o {
        Some(s) => Some(s@),
        None => None,
    }
}

/// The verdict of an answer with HTTP status `http_status` whose body holds
/// `result_status` at `/result/status` (see [`json_result_status`]).
pub open spec fn verdict_spec(
    http_status: u16,
    result_status: Option<Option<Seq<char>>>,
) -> Result<bool, EngineError> {
    match result_status {
        None => Err(EngineError::MalformedBody),
        Some(st) => if http_status != HTTP_OK {
            Err(EngineError::HttpStatus(http_status))
        } else {
            Ok(st == Some("VALID"@))
        },
    }
}

/// Relies on `serde_json::from_slice` to parse the body, and on
/// `Value::pointer` and `Value::as_str` to read the string at `/result/status`.
#[verifier::external_body]
fn parse_result_status(body: &[u8]) -> (r: Option<Option<String>>)
    ensures
        match r {
            Some(st) => json_result_status(body@) == Some(opt_str_view(st)),
            None => json_result_status(body@) is None,
        },
        body@.len() == 0 ==> r is None,
{
    let Ok(v) = serde_json::from_slice::<serde_json::Value>(body) else {
        return None;
    };
    Some(v.pointer("/result/status").and_then(serde_json::Value::as_str).map(String::from))
}

impl EngineError {
    /// A human-readable description of the error.
    pub fn message(&self) -> String {
        match self {
            EngineError::MalformedBody => String::from_str("Engine API returned a malformed body"),
            EngineError::HttpStatus(_) => String::from_str("Engine API returned a non-success status"),
        }
    }
}

/// The verdict of an answer, from its HTTP status and the status string read
/// from its body: `true` for a 200 answer whose status is exactly `VALID`,
/// `false` for a 200 answer with any other or no status, an error otherwise.
pub fn engine_verdict(http_status: u16, result_status: Option<Option<String>>) -> (r: Result<bool, EngineError>)
    ensures
        r == verdict_spec(http_status, match result_status {
            Some(st) => Some(opt_str_view(st)),
            None => None,
        }),
{
    proof {
        reveal_strlit("VALID");
    }
    match result_status {
        None => Err(EngineError::MalformedBody),
        Some(st) => {
            if http_status != HTTP_OK {
                Err(EngineError::HttpStatus(http_status))
            } else {
                match st {
                    Some(s) => {
                        let valid = String::from_str("VALID");
                        Ok(s == valid)
                    },
                    None => Ok(false),
                }
            }
        },
    }
}

/// The verdict of the engine API's answer with HTTP status `http_status`
/// and body `body`.
pub fn validate_response(http_status: u16, body: &[u8]) -> (r: Result<bool, EngineError>)
    ensures
        r == verdict_spec(http_status, json_result_status(body@)),
{
    let parsed = parse_result_status(body);
    engine_verdict(http_status, parsed)
}

} // verus!

verus! {

/// A 200 answer whose status is `VALID` is a `true` verdict, one with any
/// other status a `false` one, and an answer with any other HTTP status is
/// an error, never `true`.
pub proof fn lemma_engine_verdicts(http_status: u16, status: Option<Seq<char>>)
    ensures
        verdict_spec(HTTP_OK, Some(Some("VALID"@))) == Ok::<bool, EngineError>(true),
        status != Some("VALID"@) ==> verdict_spec(HTTP_OK, Some(status)) == Ok::<bool, EngineError>(false),
        http_status != HTTP_OK ==> verdict_spec(http_status, Some(status))
            == Err::<bool, EngineError>(EngineError::HttpStatus(http_status)),
        verdict_spec(http_status, None) == Err::<bool, EngineError>(EngineError::MalformedBody),
{
}

} // verus!
