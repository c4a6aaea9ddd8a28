use vstd::prelude::*;

use std::sync::atomic::{AtomicI64, Ordering};

verus! {

/// Why a completed request could not be counted.
#[derive(PartialEq, Eq, Structural, Clone, Copy, Debug)]
pub enum CounterError {
    /// The count already stands at the largest value an `i64` holds.
    Overflow,
}

/// The count after `k` more completed requests, each adding one, from `start`.
pub open spec fn after_requests(start: int, k: nat) -> int
    decreases k,
{
    if k == 0 {
        start
    } else {
        after_requests(start, (k - 1) as nat) + 1
    }
}

/// The count after one more completed request, or `None` where the count would
/// leave the range of `i64`.
pub fn next_count(current: i64) -> (r: Option<i64>)
    ensures
        current < i64::MAX ==> r == Some((current + 1) as i64),
        current == i64::MAX ==> r is None,
{
    if current < i64::MAX {
        Some(current + 1)
    } else {
        None
    }
}

/// Arithmetic of the count model: `k` steps of one each, from `start`, end at
/// `start + k`. This is a fact of `after_requests` alone; that the shared counter
/// follows it rests on each step being one atomic `fetch_update` of `next_count`.
pub proof fn lemma_requests_counted_once(start: int, k: nat)
    ensures
        after_requests(start, k) == start + k,
    decreases k,
{
    if k > 0 {
        lemma_requests_counted_once(start, (k - 1) as nat);
    }
}

/// Arithmetic of the count model: `a` steps and then `b` steps end where `a + b`
/// steps from the same start do.
pub proof fn lemma_batches_compose(start: int, a: nat, b: nat)
    ensures
        after_requests(after_requests(start, a), b) == after_requests(start, a + b),
{
    lemma_requests_counted_once(start, a);
    lemma_requests_counted_once(after_requests(start, a), b);
    lemma_requests_counted_once(start, a + b);
}

/// Relies on `AtomicI64::fetch_update`, with `next_count` as the update: it
/// returns `Ok(previous)` where the update gave a new value, which it stored in
/// one atomic step, and `Err(previous)` where the update gave `None`, storing
/// nothing.
#[verifier::external_body]
fn atomic_fetch_update(counter: &AtomicI64) -> (r: Result<i64, i64>)
    ensures
        r matches Ok(p) ==> p < i64::MAX,
        r matches Err(p) ==> p == i64::MAX,
{
    counter.fetch_update(Ordering::SeqCst, Ordering::SeqCst, |c| next_count(c))
}

/// A request counter at zero.
pub fn new_request_counter() -> (r: AtomicI64) {
    AtomicI64::new(0)
}

/// Counts one completed request: the counter goes up by one in a single atomic
/// step, and the count it then held is returned, as `count_after` gives it. Fails, counting nothing, only
/// where the counter already holds `i64::MAX`.
pub fn record_request(counter: &AtomicI64) -> (r: Result<i64, CounterError>)
    ensures
        r matches Ok(n) ==> n > i64::MIN,
        r is Err ==> r == Err::<i64, CounterError>(CounterError::Overflow),
{
    count_after(atomic_fetch_update(counter))
}

/// The outcome of one counting step, from what the atomic update reported:
/// `Ok(previous)` where it stored `previous + 1`, `Err(_)` where it stored
/// nothing because the count was at its largest.
pub fn count_after(update: Result<i64, i64>) -> (r: Result<i64, CounterError>)
    requires
        update matches Ok(p) ==> p < i64::MAX,
    ensures
        update matches Ok(p) ==> r == Ok::<i64, CounterError>((p + 1) as i64),
        update is Err ==> r == Err::<i64, CounterError>(CounterError::Overflow),
{
    match update {
        Ok(previous) => Ok(previous + 1),
        Err(_) => Err(CounterError::Overflow),
    }
}

/// The number of requests counted so far.
pub fn read_count(counter: &AtomicI64) -> i64 {
    counter.load(Ordering::SeqCst)
}

} // verus!
