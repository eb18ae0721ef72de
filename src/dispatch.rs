//! Retry policy of one dispatched request: a single transparent refresh-and-retry on 401.
use vstd::prelude::*;
use crate::error::ClientError;

verus! {

/// The status with which the service refuses a token.
pub const UNAUTHORIZED: u16 = 401;

/// What the dispatcher does with a response status.
#[derive(Debug)]
pub enum StatusAction {
    /// Hand the response on for decoding or download.
    Proceed,
    /// Refresh the token and send the request once more.
    RefreshAndRetry,
    /// Give up with this error.
    Fail(ClientError),
}

/// The attempts of one request.
pub struct Dispatch {
    retried: bool,
}

/// What a status leads to, by whether the request was already retried: 0 proceed,
/// 1 refresh and retry, 2 fail with an authentication error.
pub open spec fn action_code(retried: bool, status: u16) -> nat {
    if status != UNAUTHORIZED {
        0
    } else if !retried {
        1
    } else {
        2
    }
}

/// The number of refresh-and-retry rounds when the request receives `statuses` in turn,
/// starting in the given state; the request ends at the first status that does not ask for a
/// retry.
pub open spec fn retries(retried: bool, statuses: Seq<u16>) -> nat
    decreases statuses.len(),
{
    if statuses.len() == 0 {
        0
    } else if action_code(retried, statuses[0]) == 1 {
        1 + retries(true, statuses.drop_first())
    } else {
        0
    }
}

/// The number of responses the request consumes before it ends.
pub open spec fn responses_used(retried: bool, statuses: Seq<u16>) -> nat
    decreases statuses.len(),
{
    if statuses.len() == 0 {
        0
    } else if action_code(retried, statuses[0]) == 1 {
        1 + responses_used(true, statuses.drop_first())
    } else {
        1
    }
}

impl Dispatch {
    /// Whether the request has been retried.
    pub closed spec fn was_retried(&self) -> bool {
        self.retried
    }

    /// A request before its first response.
    pub fn new() -> (r: Dispatch)
        ensures
            !r.was_retried(),
    {
        Dispatch { retried: false }
    }

    /// Decides on a response status: a first 401 asks for one refresh and retry, a 401 after
    /// the retry is an authentication error, anything else proceeds.
    pub fn on_status(&mut self, status: u16) -> (r: StatusAction)
        ensures
            action_code(old(self).was_retried(), status) == 0 ==> r is Proceed,
            action_code(old(self).was_retried(), status) == 1 ==> r is RefreshAndRetry,
            action_code(old(self).was_retried(), status) == 2 ==> r is Fail && r->Fail_0 is Auth,
            final(self).was_retried() == (old(self).was_retried() || status == UNAUTHORIZED),
    {
        if status != UNAUTHORIZED {
            StatusAction::Proceed
        } else if !self.retried {
            self.retried = true;
            StatusAction::RefreshAndRetry
        } else {
            StatusAction::Fail(
                ClientError::Auth(String::from_str("unauthorized after token refresh")),
            )
        }
    }
}

/// A request is refreshed and retried at most once and ends by its second response; when both
/// its first and second responses are 401 it fails with an authentication error.
pub proof fn lemma_single_retry(statuses: Seq<u16>)
    ensures
        retries(false, statuses) <= 1,
        responses_used(false, statuses) <= 2,
        statuses.len() >= 2 && statuses[0] == UNAUTHORIZED && statuses[1] == UNAUTHORIZED
            ==> action_code(false, statuses[0]) == 1 && action_code(true, statuses[1]) == 2,
{
    if statuses.len() > 0 && action_code(false, statuses[0]) == 1 {
        let rest = statuses.drop_first();
        if rest.len() > 0 {
            assert(action_code(true, rest[0]) != 1);
            assert(retries(true, rest) == 0);
            assert(responses_used(true, rest) == 1);
        } else {
            assert(retries(true, rest) == 0);
            assert(responses_used(true, rest) == 0);
        }
        assert(retries(false, statuses) == 1 + retries(true, rest));
        assert(responses_used(false, statuses) == 1 + responses_used(true, rest));
    }
}

} // verus!
