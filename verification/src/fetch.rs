//! The bounded-retry policy of the remote fetch client.
//!
//! One logical fetch of a block or a transaction makes up to
//! [`MAX_FETCH_ATTEMPTS`] attempts against the remote source, with no delay
//! between them. A transient transport or decode failure is retried; the
//! first successful attempt ends the fetch with its value; once the bound is
//! reached the fetch is exhausted, which the caller treats as fatal.
//!
//! The policy is stated and verified here over the sequence of outcomes the
//! remote source produces, one per attempt; the code that performs the
//! actual network calls feeds those outcomes in as they arrive.

use vstd::prelude::*;

verus! {

/// How many attempts one logical fetch makes before giving up: the first
/// attempt plus the retries, back to back.
pub const MAX_FETCH_ATTEMPTS: u64 = 9;

/// What one attempt against the remote source produced: the decoded value,
/// or a transient transport/decode failure worth retrying.
#[derive(Debug, Clone, PartialEq, Eq)]
pub enum AttemptOutcome<T> {
    Success(T),
    TransientFailure,
}

/// The fetch client's terminal failure: the retry bound was reached without
/// a single successful attempt.
#[derive(Debug, Clone, PartialEq, Eq)]
pub enum FetchError {
    Exhausted,
}

/// How many attempts fail before the first success: the whole length when
/// no attempt succeeds.
pub open spec fn leading_failures<T>(outcomes: Seq<AttemptOutcome<T>>) -> nat
    decreases outcomes.len(),
{
    if outcomes.len() == 0 {
        0
    } else if outcomes[0] is Success {
        0
    } else {
        1 + leading_failures(outcomes.skip(1))
    }
}

/// What the retry policy yields on a given run of attempt outcomes: the
/// value of the first success when it comes within the attempt bound and
/// within the run, and exhaustion otherwise.
pub open spec fn fetch_result<T>(outcomes: Seq<AttemptOutcome<T>>) -> Result<T, FetchError> {
    let k = leading_failures(outcomes);
    if k < MAX_FETCH_ATTEMPTS as nat && k < outcomes.len() {
        Ok(outcomes[k as int]->Success_0)
    } else {
        Err(FetchError::Exhausted)
    }
}

/// Splitting a run of outcomes after `i` known failures relates its count of
/// leading failures to that of the remainder.
proof fn lemma_leading_failures_skip<T>(outcomes: Seq<AttemptOutcome<T>>, i: int)
    requires
        0 <= i <= outcomes.len(),
        forall|j: int| 0 <= j < i ==> !(outcomes[j] is Success),
    ensures
        leading_failures(outcomes) == i + leading_failures(outcomes.skip(i)),
    decreases i,
{
    if i > 0 {
        assert(forall|j: int|
            0 <= j < i - 1 ==> !(#[trigger] outcomes.skip(1)[j] is Success));
        lemma_leading_failures_skip(outcomes.skip(1), i - 1);
        assert(outcomes.skip(1).skip(i - 1) == outcomes.skip(i));
    } else {
        assert(outcomes.skip(0) == outcomes);
    }
}

/// Runs the bounded-retry policy over the queued outcomes a remote source
/// produces, one per attempt in ascending order, consuming each outcome as
/// the attempt that observes it is made. A queue shorter than the attempt
/// bound that never succeeds is exhausted just as a failing full-length run
/// is.
pub fn run_fetch<T>(outcomes: &mut Vec<AttemptOutcome<T>>) -> (r: Result<T, FetchError>)
    ensures
        r == fetch_result(old(outcomes)@),
{
    let ghost orig = outcomes@;
    let mut attempts: u64 = 0;
    while attempts < MAX_FETCH_ATTEMPTS && outcomes.len() > 0
        invariant
            orig == old(outcomes)@,
            attempts <= MAX_FETCH_ATTEMPTS,
            attempts as int <= orig.len(),
            outcomes@ == orig.skip(attempts as int),
            forall|j: int| 0 <= j < attempts ==> !(#[trigger] orig[j] is Success),
        decreases MAX_FETCH_ATTEMPTS - attempts,
    {
        let outcome = outcomes.remove(0);
        assert(outcome == orig[attempts as int]);
        match outcome {
            AttemptOutcome::Success(v) => {
                proof {
                    lemma_leading_failures_skip(orig, attempts as int);
                    assert(orig.skip(attempts as int)[0] == orig[attempts as int]);
                    assert(leading_failures(orig.skip(attempts as int)) == 0);
                    assert(leading_failures(orig) == attempts as nat);
                }
                return Ok(v);
            }
            AttemptOutcome::TransientFailure => {
                proof {
                    assert(outcomes@ =~= orig.skip(attempts as int + 1));
                }
                attempts = attempts + 1;
            }
        }
    }
    proof {
        lemma_leading_failures_skip(orig, attempts as int);
        if attempts < MAX_FETCH_ATTEMPTS {
            assert(orig.skip(attempts as int).len() == 0);
            assert(leading_failures(orig) == orig.len());
        } else {
            assert(leading_failures(orig) >= MAX_FETCH_ATTEMPTS as nat);
        }
    }
    Err(FetchError::Exhausted)
}

/// Law: against a remote source that fails exactly `k` times and then
/// succeeds, the fetch policy returns the successful value when `k` is
/// below the attempt bound, and reports exhaustion when it is not.
pub proof fn lemma_retry_bound<T>(outcomes: Seq<AttemptOutcome<T>>, k: int, v: T)
    requires
        0 <= k < outcomes.len(),
        forall|j: int| 0 <= j < k ==> outcomes[j] == AttemptOutcome::<T>::TransientFailure,
        outcomes[k] == AttemptOutcome::Success(v),
    ensures
        k < MAX_FETCH_ATTEMPTS ==> fetch_result(outcomes) == Ok::<T, FetchError>(v),
        k >= MAX_FETCH_ATTEMPTS ==> fetch_result(outcomes) == Err::<T, FetchError>(
            FetchError::Exhausted,
        ),
{
    lemma_leading_failures_skip(outcomes, k);
    assert(outcomes.skip(k)[0] is Success);
    assert(leading_failures(outcomes) == k as nat);
}

} // verus!
