//! Assembly of a card plan out of the three fetched inputs: the profiles
//! envelope, the weight envelope, and the raw avatar bytes. Either every
//! input is usable and a complete plan comes back, or the first failure in
//! that order comes back and no partial card is ever produced.

use vstd::prelude::*;
use crate::bitmap::{decode_avatar, decoded_rgba, RgbaBitmap};
use crate::errors::PipelineError;
use crate::layout::{plan_matches, texts_plan, TextItem};
use crate::model::{Player, SkyblockLilyWeightResponse, SkyblockProfilesResponse};
use crate::select::{
    is_latest_profile, profiles_usable, select_profile, select_weight, weight_usable,
};

verus! {

/// Everything the card drawer needs: the decoded avatar and every text with
/// its position, in drawing order.
pub struct CardPlan {
    pub avatar: RgbaBitmap,
    pub texts: Vec<TextItem>,
}

/// Assembles the card plan for a player out of the two service envelopes
/// and the fetched avatar bytes. Failures are reported in the order the
/// original inputs are consumed: the profiles envelope first, then the
/// weight envelope, then the avatar bytes.
pub fn assemble_card(
    player: &Player,
    profiles: SkyblockProfilesResponse,
    weight: SkyblockLilyWeightResponse,
    avatar_bytes: &Vec<u8>,
) -> (r: Result<CardPlan, PipelineError>)
    ensures
        profiles.status != 200 ==> (r matches Err(e) && e == PipelineError::UpstreamStatus(
            profiles.status,
        )),
        profiles.status == 200 && !profiles_usable(profiles) ==> (r matches Err(e) && e
            == PipelineError::EmptyResult),
        profiles_usable(profiles) && !weight.success ==> (r matches Err(e) && e
            == PipelineError::UpstreamFailure),
        profiles_usable(profiles) && weight.success && weight.data is None ==> (r matches Err(e)
            && e == PipelineError::EmptyResult),
        profiles_usable(profiles) && weight_usable(weight) && decoded_rgba(avatar_bytes@) is None
            ==> (r matches Err(e) && e == PipelineError::Decode),
        profiles_usable(profiles) && weight_usable(weight) && decoded_rgba(avatar_bytes@) is Some
            ==> (r matches Ok(plan) && ({
            &&& plan.avatar.wf()
            &&& decoded_rgba(avatar_bytes@) matches Some(d) && plan.avatar.pixels@ == d.0
                && plan.avatar.width == d.1 && plan.avatar.height == d.2
            &&& exists|i: int|
                is_latest_profile(profiles.data.unwrap()@, i) && plan_matches(
                    plan.texts@,
                    *player,
                    profiles.data.unwrap()@[i],
                    weight.data.unwrap(),
                )
        })),
{
    let ghost profiles_in = profiles;
    let profile = match select_profile(profiles) {
        Ok(p) => p,
        Err(e) => {
            return Err(e);
        },
    };
    let weight_score = match select_weight(weight) {
        Ok(w) => w,
        Err(e) => {
            return Err(e);
        },
    };
    let avatar = match decode_avatar(avatar_bytes) {
        Ok(a) => a,
        Err(e) => {
            return Err(e);
        },
    };
    let texts = texts_plan(player, &profile, &weight_score);
    proof {
        let i = choose|i: int|
            is_latest_profile(profiles_in.data.unwrap()@, i) && profile
                == profiles_in.data.unwrap()@[i];
        assert(is_latest_profile(profiles_in.data.unwrap()@, i) && plan_matches(
            texts@,
            *player,
            profiles_in.data.unwrap()@[i],
            weight_score,
        ));
    }
    Ok(CardPlan { avatar, texts })
}

} // verus!
