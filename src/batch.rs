//! The per-path batching policy of the structured interface generations: a
//! multi-path call is carried out as one remote call per path, in the
//! caller's order, and stops at the first failure.
//!
//! A batch hands out its requests one at a time; the caller performs each
//! remote call and records its outcome. Requests recorded before a failure
//! have already been applied by the broker and are not undone: after a
//! failure the caller learns from the batch how many requests were issued.

use vstd::prelude::*;
use crate::errors::ClientError;

verus! {

/// The state of a batch: its requests, how many of them succeeded, what
/// they returned, and the failure that stopped it, if any.
pub struct BatchState<Q, T> {
    pub requests: Seq<Q>,
    pub position: nat,
    pub collected: Seq<T>,
    pub failure: Option<ClientError>,
}

impl<Q, T> BatchState<Q, T> {
    pub open spec fn wf(self) -> bool {
        &&& self.position <= self.requests.len()
        &&& self.failure is Some ==> self.position < self.requests.len()
    }

    /// The index of the request to issue next, if the batch goes on.
    pub open spec fn next(self) -> Option<int> {
        if self.failure is None && self.position < self.requests.len() {
            Some(self.position as int)
        } else {
            None
        }
    }

    /// How many requests have been issued and answered.
    pub open spec fn issued(self) -> nat {
        if self.failure is Some {
            self.position + 1
        } else {
            self.position
        }
    }

    /// The result of the whole batch, once it is known: the first failure,
    /// or what all requests returned, concatenated in request order.
    pub open spec fn outcome(self) -> Option<Result<Seq<T>, ClientError>> {
        match self.failure {
            Some(e) => Some(Err(e)),
            None => if self.position == self.requests.len() {
                Some(Ok(self.collected))
            } else {
                None
            },
        }
    }

    /// The state after the pending request answered `result`.
    pub open spec fn step(self, result: Result<Seq<T>, ClientError>) -> BatchState<Q, T> {
        match result {
            Ok(items) => BatchState {
                requests: self.requests,
                position: self.position + 1,
                collected: self.collected + items,
                failure: None,
            },
            Err(e) => BatchState {
                requests: self.requests,
                position: self.position,
                collected: self.collected,
                failure: Some(e),
            },
        }
    }
}

pub open spec fn result_view<T>(r: Result<Vec<T>, ClientError>) -> Result<Seq<T>, ClientError> {
    match r {
        Ok(v) => Ok(v@),
        Err(e) => Err(e),
    }
}

/// A multi-path call in progress.
pub struct Batch<Q, T> {
    requests: Vec<Q>,
    position: usize,
    collected: Vec<T>,
    failure: Option<ClientError>,
}

impl<Q, T> View for Batch<Q, T> {
    type V = BatchState<Q, T>;

    closed spec fn view(&self) -> BatchState<Q, T> {
        BatchState {
            requests: self.requests@,
            position: self.position as nat,
            collected: self.collected@,
            failure: self.failure,
        }
    }
}

impl<Q, T> Batch<Q, T> {
    /// A batch that will issue `requests` in order.
    pub fn new(requests: Vec<Q>) -> (r: Batch<Q, T>)
        ensures
            r@.wf(),
            r@.requests == requests@,
            r@.position == 0,
            r@.collected.len() == 0,
            r@.failure is None,
    {
        Batch { requests, position: 0, collected: Vec::new(), failure: None }
    }

    /// The request to issue next, or `None` once the batch is finished.
    pub fn next_request(&self) -> (r: Option<&Q>)
        requires
            self@.wf(),
        ensures
            match self@.next() {
                Some(i) => r matches Some(q) && *q == self@.requests[i],
                None => r is None,
            },
    {
        if self.failure.is_none() && self.position < self.requests.len() {
            Some(&self.requests[self.position])
        } else {
            None
        }
    }

    /// Records what the pending request returned.
    pub fn record(&mut self, result: Result<Vec<T>, ClientError>)
        requires
            old(self)@.wf(),
            old(self)@.next() is Some,
        ensures
            final(self)@ == old(self)@.step(result_view(result)),
            final(self)@.wf(),
    {
        match result {
            Ok(items) => {
                let mut items = items;
                let ghost before = self.collected@;
                let ghost added = items@;
                let n = self.requests.len();
                self.collected.append(&mut items);
                assert(self.collected@ == before + added);
                self.position = self.position + 1;
            },
            Err(e) => {
                self.failure = Some(e);
            },
        }
    }

    /// Records the outcome of a pending request that returns nothing.
    pub fn record_done(&mut self, result: Result<(), ClientError>)
        requires
            old(self)@.wf(),
            old(self)@.next() is Some,
        ensures
            final(self)@ == old(self)@.step(
                match result {
                    Ok(_) => Ok(Seq::empty()),
                    Err(e) => Err(e),
                },
            ),
            final(self)@.wf(),
    {
        match result {
            Ok(_) => {
                let ghost before = self@;
                self.record(Ok(Vec::new()));
                assert(before.collected + Seq::<T>::empty() =~= before.collected);
            },
            Err(e) => self.record(Err(e)),
        }
    }

    /// Whether the result of the batch is known.
    pub fn is_finished(&self) -> (r: bool)
        requires
            self@.wf(),
        ensures
            r == self@.outcome() is Some,
            r == self@.next() is None,
    {
        self.failure.is_some() || self.position == self.requests.len()
    }

    /// How many requests have been issued and answered.
    pub fn issued(&self) -> (r: usize)
        requires
            self@.wf(),
        ensures
            r == self@.issued(),
    {
        let n = self.requests.len();
        if self.failure.is_some() {
            self.position + 1
        } else {
            self.position
        }
    }

    /// The result of the finished batch.
    pub fn finish(self) -> (r: Result<Vec<T>, ClientError>)
        requires
            self@.wf(),
            self@.outcome() is Some,
        ensures
            result_view(r) == self@.outcome()->Some_0,
    {
        match self.failure {
            Some(e) => Err(e),
            None => Ok(self.collected),
        }
    }
}

/// Fail-fast: when the call for a request of a batch fails, that failure is
/// the result of the whole batch, the failed request is the last one issued,
/// and no later request is issued.
pub proof fn fail_fast<Q, T>(s: BatchState<Q, T>, e: ClientError)
    requires
        s.wf(),
        s.next() is Some,
    ensures
        s.step(Err(e)).wf(),
        s.step(Err(e)).next() is None,
        s.step(Err(e)).outcome() == Some(Err::<Seq<T>, ClientError>(e)),
        s.step(Err(e)).issued() == s.issued() + 1,
        s.step(Err(e)).issued() == s.next()->Some_0 + 1,
{
}

/// A batch whose requests all succeed returns what they returned, in
/// request order, after issuing each of them once.
pub proof fn all_succeed<Q, T>(s: BatchState<Q, T>, items: Seq<T>)
    requires
        s.wf(),
        s.next() is Some,
        s.position + 1 == s.requests.len(),
    ensures
        s.step(Ok(items)).outcome() == Some(Ok::<Seq<T>, ClientError>(s.collected + items)),
        s.step(Ok(items)).issued() == s.requests.len(),
{
}

} // verus!
