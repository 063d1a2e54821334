//! The health of a process: whether it has work in progress.

use crate::business::{BusinessCounter, BusinessToken};
use vstd::prelude::*;

verus! {

/// Whether a process with `active` tokens out is busy: when at least one
/// is out.
pub open spec fn spec_busy_with(active: usize) -> bool {
    active != 0
}

#[verifier::when_used_as_spec(spec_busy_with)]
pub fn busy_with(active: usize) -> (busy: bool)
    ensures
        busy == spec_busy_with(active),
{
    active != 0
}

/// What [`busy_with`] says of the tokens that are out of `counter` at this
/// moment.
pub fn is_busy(counter: &BusinessCounter) -> bool {
    busy_with(counter.active())
}

/// Takes a token out of `counter`, to be held while a piece of work lasts.
pub fn busy(counter: &BusinessCounter) -> (token: BusinessToken)
    ensures
        token.taken_from(counter),
{
    BusinessToken::new(counter)
}

} // verus!
