//! Classification of one delivery attempt's outcome.
//!
//! The delivery client performs a single POST of one outbound message and
//! classifies the response: a 2xx status is accepted, 429 is rate limited
//! (retryable), and anything else — another status or a transport-level
//! failure — is a terminal failure for that item, carrying a reason.

use vstd::prelude::*;

verus! {

/// The outcome of one delivery attempt, as the retry controller consumes it.
#[derive(Debug, PartialEq, Eq)]
pub enum AttemptResult {
    /// The destination acknowledged the message (HTTP 2xx).
    Accepted,
    /// The destination's request ceiling was hit (HTTP 429); retryable.
    RateLimited,
    /// Any other status or a transport-level failure; never retried.
    Failed(String),
}

impl Clone for AttemptResult {
    /// A clone equals the original.
    fn clone(&self) -> (r: Self)
        ensures
            r == *self,
    {
        match self {
            AttemptResult::Accepted => AttemptResult::Accepted,
            AttemptResult::RateLimited => AttemptResult::RateLimited,
            AttemptResult::Failed(m) => AttemptResult::Failed(m.clone()),
        }
    }
}

/// The reason string recorded for a non-2xx, non-429 response:
/// the status code followed by the response body.
pub open spec fn failure_reason(status: u16, body: Seq<char>) -> Seq<char> {
    "status "@ + crate::numeral::dec_of(status as nat) + ", body: "@ + body
}

/// Classify one HTTP response of the destination.
pub fn classify_response(status: u16, body: &str) -> (r: AttemptResult)
    ensures
        (200 <= status < 300) <==> r is Accepted,
        status == 429 <==> r is RateLimited,
        !(200 <= status < 300) && status != 429 ==> (r matches AttemptResult::Failed(m)
            && m@ == failure_reason(status, body@)),
{
    if 200 <= status && status < 300 {
        AttemptResult::Accepted
    } else if status == 429 {
        AttemptResult::RateLimited
    } else {
        let mut m = String::new();
        m.append("status ");
        let digits = crate::numeral::u64_to_string(status as u64);
        m.append(digits.as_str());
        m.append(", body: ");
        m.append(body);
        AttemptResult::Failed(m)
    }
}

} // verus!
