//! The provider of attestations in a trusted execution environment, as a
//! guest sees it.

use vstd::prelude::*;
use crate::step::Step;

verus! {

/// A platform that issues attestation reports and launch measurements.
///
/// Each retrieval is a protocol: the platform's outside work is the caller's,
/// who performs each action that a step asks for and reports the outcome as
/// the next event, until a step finishes.
pub trait AttestationProvider {
    /// How far a retrieval has come.
    type State;

    /// What the caller reports.
    type Event;

    /// What the caller is asked to do.
    type Action;

    /// One step of retrieving the attestation report, of which the last
    /// gives the report as text.
    fn get_attestation_report(&self, state: Self::State, event: Self::Event) -> (Self::State, Step<
        Self::Action,
        String,
    >);

    /// One step of retrieving the launch measurement, of which the last gives
    /// the measurement.
    fn get_launch_measurement(&self, state: Self::State, event: Self::Event) -> (Self::State, Step<
        Self::Action,
        [u8; 48],
    >);
}

} // verus!
