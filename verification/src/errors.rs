//! Failures of the stat-card pipeline.

use vstd::prelude::*;

verus! {

/// Why a stage of the pipeline failed.
///
/// - `Validation`: the requested name is not a valid username.
/// - `Upstream`: an upstream service could not be reached at all.
/// - `UpstreamStatus`: the profiles service answered, but its envelope
///   carried a status other than 200 (the carried value).
/// - `UpstreamFailure`: the weight service answered, but reported failure.
/// - `EmptyResult`: an upstream service reported success yet returned no
///   usable data (no profile list, an empty profile list, or no payload).
/// - `Decode`: the avatar bytes are not a decodable RGBA image.
#[derive(Clone, Copy, Debug, PartialEq, Eq, Structural)]
pub enum PipelineError {
    Validation,
    Upstream,
    UpstreamStatus(u16),
    UpstreamFailure,
    EmptyResult,
    Decode,
}

} // verus!
