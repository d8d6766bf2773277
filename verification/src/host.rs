//! The host of a trusted execution environment, as its guests see it.

use vstd::prelude::*;
use crate::error::Error;
use crate::step::Step;

verus! {

/// A host whose endorsement of a guest's launch measurement can be verified.
///
/// The verification is a protocol: the host's outside work (fetching and
/// decoding the endorsement, reading trust anchors) is the caller's, who
/// performs each action that a step asks for and reports the outcome as the
/// next event, until a step finishes.
pub trait TeeHost {
    /// How far a verification has come.
    type State;

    /// What the caller reports.
    type Event;

    /// What the caller is asked to do.
    type Action;

    /// One step of verifying the guest's launch measurement against the
    /// host's endorsement. The result of the last step is whether the
    /// endorsed measurement is the guest's.
    fn verify_launch_endorsement(&self, state: Self::State, event: Self::Event) -> (Self::State, Step<
        Self::Action,
        bool,
    >);
}

} // verus!
