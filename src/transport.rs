//! The prepared call and the retry rules of the transport. The network work
//! itself happens outside; after each attempt its outcome is handed to
//! [`on_outcome`], which decides whether the call is over.
use vstd::prelude::*;
use vstd::string::*;
use crate::error::LlmError;

verus! {

/// The attempt budget used unless configured otherwise.
pub const DEFAULT_MAX_ATTEMPTS: u32 = 3;

/// The per-attempt time limit used unless configured otherwise, in seconds.
pub const DEFAULT_TIMEOUT_SEC: u64 = 300;

/// The key that stands in for a secret that was not available.
pub open spec fn missing_key() -> Seq<char> {
    "not_key"@
}

/// The key kept by a builder: the given one, or the placeholder where it is
/// absent or empty.
pub open spec fn resolved_key(key: Option<Seq<char>>) -> Seq<char> {
    match key {
        Some(k) => if k.len() > 0 {
            k
        } else {
            missing_key()
        },
        None => missing_key(),
    }
}

/// Whether a kept key is a real secret.
pub open spec fn key_available(k: Seq<char>) -> bool {
    k.len() > 0 && k != missing_key()
}

/// Whether a status code means success (2xx).
pub open spec fn is_success(status: u16) -> bool {
    200 <= status && status <= 299
}

/// Everything the transport needs for one call: where, with which key, what
/// body, and the retry policy.
#[derive(Clone, Debug)]
pub struct Call {
    pub url: String,
    pub api_key: String,
    pub body: String,
    pub timeout_sec: u64,
    pub max_attempts: u32,
}

/// What one attempt came to.
#[derive(Clone, Debug)]
pub enum AttemptOutcome {
    /// The service answered with this status and body.
    Response(u16, String),
    /// The attempt ran past its time limit.
    Timeout,
    /// The connection failed.
    Network(String),
}

/// What the transport does after an attempt.
#[derive(Debug)]
pub enum Step {
    /// The call is over, with this result.
    Done(Result<String, LlmError>),
    /// Another attempt is made; this failure is the latest observed.
    Retry(LlmError),
}

/// The result that a single attempt stands for.
pub open spec fn outcome_result(o: AttemptOutcome) -> Result<String, LlmError> {
    match o {
        AttemptOutcome::Response(s, b) => if is_success(s) {
            Ok(b)
        } else {
            Err(LlmError::HttpStatus(s, b))
        },
        AttemptOutcome::Timeout => Err(LlmError::Timeout),
        AttemptOutcome::Network(d) => Err(LlmError::Network(d)),
    }
}

/// The decision after attempt number `attempt` (counted from 1) of at most
/// `max_attempts`.
pub open spec fn next_step(attempt: u32, max_attempts: u32, o: AttemptOutcome) -> Step {
    match outcome_result(o) {
        Ok(b) => Step::Done(Ok(b)),
        Err(e) => if e.spec_is_transient() && attempt < max_attempts {
            Step::Retry(e)
        } else {
            Step::Done(Err(e))
        },
    }
}

/// Decides what follows attempt number `attempt` (counted from 1): success
/// ends the call with the raw body; a transient failure (timeout, network,
/// 5xx) is retried while attempts remain; anything else, or a failure on the
/// last attempt, ends the call with that failure.
pub fn on_outcome(attempt: u32, max_attempts: u32, outcome: AttemptOutcome) -> (s: Step)
    ensures
        s == next_step(attempt, max_attempts, outcome),
        s is Retry ==> attempt < max_attempts,
        outcome matches AttemptOutcome::Response(st, _) && 400 <= st && st <= 499 ==> s is Done,
{
    let r = match outcome {
        AttemptOutcome::Response(s, b) => if 200 <= s && s <= 299 {
            Ok(b)
        } else {
            Err(LlmError::HttpStatus(s, b))
        },
        AttemptOutcome::Timeout => Err(LlmError::Timeout),
        AttemptOutcome::Network(d) => Err(LlmError::Network(d)),
    };
    match r {
        Ok(b) => Step::Done(Ok(b)),
        Err(e) => if e.is_transient() && attempt < max_attempts {
            Step::Retry(e)
        } else {
            Step::Done(Err(e))
        },
    }
}

/// The key a builder keeps: the given one, or a placeholder that makes the
/// first call fail where it is absent or empty.
pub fn resolve_api_key(key: Option<&str>) -> (r: String)
    ensures
        r@ == resolved_key(
            match key {
                Some(k) => Some(k@),
                None => None,
            },
        ),
{
    proof {
        reveal_strlit("not_key");
    }
    match key {
        Some(k) => if k.unicode_len() > 0 {
            String::from_str(k)
        } else {
            String::from_str("not_key")
        },
        None => String::from_str("not_key"),
    }
}

/// Whether a kept key is a real secret rather than the placeholder.
pub fn has_api_key(key: &str) -> (r: bool)
    ensures
        r == key_available(key@),
{
    proof {
        reveal_strlit("not_key");
    }
    key.unicode_len() > 0 && !crate::text::same_text(key, "not_key")
}

} // verus!
