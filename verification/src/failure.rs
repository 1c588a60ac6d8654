//! The ways in which a step of the pipeline can fail.

use vstd::prelude::*;

verus! {

/// Why a step produced no result.
#[derive(Clone, Copy, Debug, PartialEq, Eq, Structural)]
pub enum Failure {
    /// A source of raw data could not be reached or answered without
    /// success.
    TransportFailure,
    /// A response did not have the expected shape.
    ParseFailure,
    /// The language model endpoint failed.
    UpstreamFailure,
    /// The language model's answer is too short to be a summary.
    DegenerateOutput,
    /// The triggering text does not name owner, repository and user.
    PreconditionViolation,
}

} // verus!
