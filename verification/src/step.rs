//! The shape of a protocol that leaves its outside work to the caller.

use vstd::prelude::*;
use crate::error::Error;

verus! {

/// What a protocol asks of its caller next: to perform an action and report
/// back what came of it, or to take the result, after which nothing is left
/// to do.
#[derive(Debug)]
pub enum Step<A, T> {
    /// The caller performs the action and hands the outcome to the next step.
    Perform(A),
    /// The protocol has ended with this result.
    Finish(Result<T, Error>),
}

} // verus!
