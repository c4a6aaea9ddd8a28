use vstd::prelude::*;

use crate::counter::{record_request, CounterError};
use crate::State;

verus! {

/// The interceptor that counts requests: it wraps a service into a
/// `CounterMiddleware`.
pub struct Counter;

/// A service wrapped so that each request it completes is counted, after the
/// service has responded.
pub struct CounterMiddleware<S> {
    pub service: S,
}

impl Counter {
    /// Wraps `service`, unchanged, into the counting interceptor.
    pub fn new_transform<S>(&self, service: S) -> (r: CounterMiddleware<S>)
        ensures
            r.service == service,
    {
        CounterMiddleware { service }
    }

    /// The step after the wrapped service has responded: counts the request
    /// in `state`, then hands `response` on unchanged. Where the count cannot
    /// go up the request fails instead.
    pub fn complete<R>(&self, state: &State, response: R) -> (r: Result<R, CounterError>)
        ensures
            r matches Ok(x) ==> x == response,
            r is Err ==> r == Err::<R, CounterError>(CounterError::Overflow),
    {
        match record_request(&state.counter) {
            Ok(_) => Ok(response),
            Err(e) => Err(e),
        }
    }
}

impl<S> CounterMiddleware<S> {
    /// Runs one request through the interceptor: `next` handles it first, and
    /// only once it has produced its response is the request counted.
    pub fn call<Q, R, F: FnOnce(Q) -> R>(&self, state: &State, request: Q, next: F) -> (r: Result<
        R,
        CounterError,
    >)
        requires
            call_requires(next, (request,)),
        ensures
            r matches Ok(x) ==> call_ensures(next, (request,), x),
            r is Err ==> r == Err::<R, CounterError>(CounterError::Overflow),
    {
        let response = next(request);
        Counter.complete(state, response)
    }
}

} // verus!
