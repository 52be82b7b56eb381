//! The retry policy that both operations share.
//!
//! An operation is attempted up to [`MAX_RETRIES`] times. An attempt succeeds where
//! the server answers with a status in 2xx. After a failed attempt `k`, counted from
//! zero, the next one is made `2^k` seconds later; the failure of the last attempt
//! is the failure of the operation.
use crate::error::{ClientError, ErrorView};
use vstd::arithmetic::power2::{lemma2_to64, lemma2_to64_rest, lemma_pow2_unfold, pow2};
use vstd::prelude::*;

verus! {

/// How many times an operation is attempted.
pub const MAX_RETRIES: u32 = 3;

/// What one network round trip brought.
#[derive(Debug, Clone, PartialEq, Eq)]
pub enum AttemptOutcome {
    /// The server answered.
    Response { status: u16, body: String },
    /// No answer came: the connection, the name lookup or the timer failed.
    TransportFailure { detail: String },
}

/// An [`AttemptOutcome`] with its strings as character sequences.
pub enum OutcomeView {
    Response { status: u16, body: Seq<char> },
    TransportFailure { detail: Seq<char> },
}

impl View for AttemptOutcome {
    type V = OutcomeView;

    open spec fn view(&self) -> OutcomeView {
        match self {
            AttemptOutcome::Response { status, body } => OutcomeView::Response {
                status: *status,
                body: body@,
            },
            AttemptOutcome::TransportFailure { detail } => OutcomeView::TransportFailure {
                detail: detail@,
            },
        }
    }
}

/// The view of an attempt once classified: the body, or the error.
pub open spec fn attempt_view(r: Result<String, ClientError>) -> Result<Seq<char>, ErrorView> {
    match r {
        Ok(body) => Ok(body@),
        Err(error) => Err(error@),
    }
}

/// Whether a status says that the request succeeded.
pub open spec fn is_success(status: u16) -> bool {
    200 <= status < 300
}

/// An attempt as the policy sees it: the body of a successful answer, or else the
/// error with which the operation ends if this was its last attempt.
pub open spec fn classified(outcome: OutcomeView) -> Result<Seq<char>, ErrorView> {
    match outcome {
        OutcomeView::Response { status, body } => if is_success(status) {
            Ok(body)
        } else {
            Err(ErrorView::Http { status, body })
        },
        OutcomeView::TransportFailure { detail } => Err(ErrorView::Transport { detail }),
    }
}

/// The seconds to wait after the failed attempt `attempt`, counted from zero, or
/// nothing where that attempt was the last.
pub open spec fn wait_after(attempt: nat) -> Option<nat> {
    if attempt + 1 < MAX_RETRIES {
        Some(pow2(attempt))
    } else {
        None
    }
}

/// Tests a status for success.
pub fn is_success_status(status: u16) -> (r: bool)
    ensures
        r == is_success(status),
{
    200 <= status && status < 300
}

/// Classifies what an attempt brought.
pub fn classify(outcome: AttemptOutcome) -> (r: Result<String, ClientError>)
    ensures
        attempt_view(r) == classified(outcome@),
{
    match outcome {
        AttemptOutcome::Response { status, body } => {
            if is_success_status(status) {
                Ok(body)
            } else {
                Err(ClientError::Http { status, body })
            }
        },
        AttemptOutcome::TransportFailure { detail } => Err(ClientError::Transport { detail }),
    }
}

/// The backoff after attempt `attempt`: two to that power, in seconds.
pub fn backoff_seconds(attempt: u32) -> (r: u64)
    requires
        attempt < 64,
    ensures
        r == pow2(attempt as nat),
{
    let mut seconds: u64 = 1;
    let mut k: u32 = 0;
    proof {
        lemma2_to64();
    }
    while k < attempt
        invariant
            k <= attempt < 64,
            seconds == pow2(k as nat),
        decreases attempt - k,
    {
        proof {
            lemma_pow2_unfold((k + 1) as nat);
            lemma_pow2_bound((k + 1) as nat);
        }
        seconds = seconds * 2;
        k += 1;
    }
    seconds
}

/// Powers of two below the 64th fit in 64 bits.
proof fn lemma_pow2_bound(e: nat)
    requires
        e < 64,
    ensures
        pow2(e) <= 0x8000_0000_0000_0000,
{
    lemma2_to64_rest();
    if e < 63 {
        vstd::arithmetic::power2::lemma_pow2_strictly_increases(e, 63);
    }
}

/// Decides what follows the failed attempt `attempt`, counted from zero: the seconds
/// to wait before the next attempt, or nothing where the operation has failed.
pub fn next_wait(attempt: u32) -> (r: Option<u64>)
    ensures
        match r {
            Some(seconds) => wait_after(attempt as nat) == Some(seconds as nat),
            None => wait_after(attempt as nat) is None,
        },
{
    if attempt < MAX_RETRIES - 1 {
        Some(backoff_seconds(attempt))
    } else {
        None
    }
}

/// The waits of an operation are one second, then two: after the third attempt
/// nothing is waited for.
pub proof fn waits_double()
    ensures
        wait_after(0) == Some(1nat),
        wait_after(1) == Some(2nat),
        forall|attempt: nat| attempt >= 2 ==> wait_after(attempt) is None,
{
    lemma2_to64();
}

} // verus!
