//! Counting the work in progress: a token is held for as long as a piece of
//! work lasts, and the counter knows how many tokens are out.

use std::sync::atomic::{AtomicUsize, Ordering};
use std::sync::Arc;
use vstd::prelude::*;

verus! {

/// The counter of the tokens that are out. Copies of it share one count.
pub struct BusinessCounter {
    active: Arc<AtomicUsize>,
}

/// Held while a piece of work lasts. Dropping it gives it back.
pub struct BusinessToken {
    counter: Arc<AtomicUsize>,
}

/// Whether, of `active` tokens that are out, there is none.
pub open spec fn spec_none_out(active: usize) -> bool {
    active == 0
}

#[verifier::when_used_as_spec(spec_none_out)]
pub fn none_out(active: usize) -> (none: bool)
    ensures
        none == spec_none_out(active),
{
    active == 0
}

/// `Arc::clone` of std: another handle to the same shared count.
#[verifier::external_body]
fn share(handle: &Arc<AtomicUsize>) -> (copy: Arc<AtomicUsize>)
    ensures
        copy == *handle,
{
    handle.clone()
}

impl BusinessCounter {
    /// A counter with no token out.
    pub fn new() -> BusinessCounter {
        BusinessCounter { active: Arc::new(AtomicUsize::new(0)) }
    }

    /// How many tokens are out at this moment.
    pub fn active(&self) -> usize {
        self.active.load(Ordering::SeqCst)
    }
}

impl BusinessToken {
    /// Whether this token was taken out of `counter`, so that dropping it
    /// gives it back to that counter and to no other.
    pub closed spec fn taken_from(&self, counter: &BusinessCounter) -> bool {
        self.counter == counter.active
    }

    /// Takes a token out of `counter`: the count goes up by one, and the
    /// token holds on to that count until it is dropped.
    pub fn new(counter: &BusinessCounter) -> (token: BusinessToken)
        ensures
            token.taken_from(counter),
    {
        counter.active.fetch_add(1, Ordering::SeqCst);
        BusinessToken { counter: share(&counter.active) }
    }
}

/// `AtomicUsize::fetch_sub` of std, sequentially consistent: takes one from
/// the count, wrapping around below zero. It neither panics nor blocks.
#[verifier::external_body]
fn give_back(count: &AtomicUsize)
    opens_invariants none
    no_unwind
{
    count.fetch_sub(1, Ordering::SeqCst);
}

impl Drop for BusinessToken {
    fn drop(&mut self)
        opens_invariants none
        no_unwind
    {
        give_back(&self.counter);
    }
}

/// Whether no token is out of `counter` at this moment, as [`none_out`]
/// says of the count. Mind the name: the answer is yes for a counter at
/// rest; [`crate::health::is_busy`] answers the other way round.
pub fn is_busy(counter: &BusinessCounter) -> bool {
    none_out(counter.active())
}

/// Takes a token out of `counter`.
pub fn busy(counter: &BusinessCounter) -> (token: BusinessToken)
    ensures
        token.taken_from(counter),
{
    BusinessToken::new(counter)
}

} // verus!
