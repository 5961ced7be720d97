//! Selection of the data carried forward from the two stat services: the
//! most recently saved profile out of the profiles envelope, and the weight
//! score out of the weight envelope.

use vstd::prelude::*;
use crate::errors::PipelineError;
use crate::model::{
    SkyblockLilyWeight, SkyblockLilyWeightResponse, SkyblockProfile, SkyblockProfilesResponse,
};

verus! {

/// `d[i]` is the profile the pipeline carries forward: no profile was saved
/// later, and among profiles saved at the same moment the one listed last
/// wins.
pub open spec fn is_latest_profile(d: Seq<SkyblockProfile>, i: int) -> bool {
    &&& 0 <= i < d.len()
    &&& forall|j: int| 0 <= j < d.len() ==> d[j].last_save <= d[i].last_save
    &&& forall|j: int| i < j < d.len() ==> d[j].last_save < d[i].last_save
}

/// Did the profiles envelope succeed with at least one profile?
pub open spec fn profiles_usable(resp: SkyblockProfilesResponse) -> bool {
    &&& resp.status == 200
    &&& resp.data matches Some(d) && d@.len() > 0
}

/// Picks the profile with the maximum save timestamp out of the profiles
/// envelope. An envelope whose status is not 200 is an upstream failure; a
/// missing or empty profile list is an empty result, never a placeholder
/// profile.
pub fn select_profile(resp: SkyblockProfilesResponse) -> (r: Result<
    SkyblockProfile,
    PipelineError,
>)
    ensures
        resp.status != 200 ==> (r matches Err(e) && e == PipelineError::UpstreamStatus(
            resp.status,
        )),
        resp.status == 200 && !profiles_usable(resp) ==> (r matches Err(e) && e
            == PipelineError::EmptyResult),
        profiles_usable(resp) ==> (r matches Ok(p) && exists|i: int|
            is_latest_profile(resp.data.unwrap()@, i) && p == resp.data.unwrap()@[i]),
{
    if resp.status != 200 {
        return Err(PipelineError::UpstreamStatus(resp.status));
    }
    let mut profiles = match resp.data {
        Some(d) => d,
        None => {
            return Err(PipelineError::EmptyResult);
        },
    };
    let ghost all = profiles@;
    let mut best = match profiles.pop() {
        Some(p) => p,
        None => {
            return Err(PipelineError::EmptyResult);
        },
    };
    let ghost mut best_at: int = all.len() - 1;
    while profiles.len() > 0
        invariant
            profiles@ == all.subrange(0, profiles@.len() as int),
            profiles@.len() < all.len(),
            profiles@.len() <= best_at < all.len(),
            best == all[best_at],
            forall|j: int| profiles@.len() <= j < all.len() ==> all[j].last_save
                <= best.last_save,
            forall|j: int| best_at < j < all.len() ==> all[j].last_save < best.last_save,
        decreases profiles@.len(),
    {
        let p = profiles.pop().unwrap();
        proof {
            assert(p == all[profiles@.len() as int]);
            assert(profiles@ =~= all.subrange(0, profiles@.len() as int));
        }
        if p.last_save > best.last_save {
            best = p;
            proof {
                best_at = profiles@.len() as int;
            }
        }
    }
    proof {
        assert(all =~= all.subrange(0, all.len() as int));
        assert(is_latest_profile(all, best_at));
    }
    Ok(best)
}

/// Did the weight envelope succeed with a payload?
pub open spec fn weight_usable(resp: SkyblockLilyWeightResponse) -> bool {
    resp.success && resp.data is Some
}

/// Takes the weight score out of the weight envelope. An envelope that
/// reports failure is an upstream failure; a reported success without a
/// payload is an empty result.
pub fn select_weight(resp: SkyblockLilyWeightResponse) -> (r: Result<
    SkyblockLilyWeight,
    PipelineError,
>)
    ensures
        !resp.success ==> (r matches Err(e) && e == PipelineError::UpstreamFailure),
        resp.success && resp.data is None ==> (r matches Err(e) && e
            == PipelineError::EmptyResult),
        weight_usable(resp) ==> (r matches Ok(w) && w == resp.data.unwrap()),
{
    if !resp.success {
        return Err(PipelineError::UpstreamFailure);
    }
    match resp.data {
        Some(w) => Ok(w),
        None => Err(PipelineError::EmptyResult),
    }
}

} // verus!
