use skyblock_stats::errors::PipelineError;
use skyblock_stats::model::{
    Player, SkyblockLilyWeight, SkyblockLilyWeightResponse, SkyblockNetworth, SkyblockProfile,
    SkyblockProfilesResponse, SkyblockSenitherWeight, SkyblockSkill, SkyblockSkills,
    SkyblockSlayer, SkyblockSlayers,
};
use skyblock_stats::select::{select_profile, select_weight};
use skyblock_stats::username::validate_username;

fn skill(level: u16) -> SkyblockSkill {
    SkyblockSkill { xp: 0, level, xp_current: 0, xp_for_next: 0 }
}

fn slayer(xp: u64) -> SkyblockSlayer {
    SkyblockSlayer { xp, level: 0, xp_for_next: 0 }
}

fn profile(name: &str, last_save: u64) -> SkyblockProfile {
    SkyblockProfile {
        username: "Antonio32A".to_string(),
        id: "profile-id".to_string(),
        name: name.to_string(),
        last_save,
        fairy_souls: 0,
        networth: SkyblockNetworth {
            no_inventory: None,
            total_networth: None,
            purse: None,
            bank: None,
        },
        weight: SkyblockSenitherWeight { total_weight: 0, total_weight_with_overflow: 0 },
        skills: SkyblockSkills {
            farming: skill(0),
            mining: skill(0),
            combat: skill(0),
            foraging: skill(0),
            fishing: skill(0),
            enchanting: skill(0),
            alchemy: skill(0),
            carpentry: skill(0),
            runecrafting: skill(0),
            social: skill(0),
            taming: skill(0),
        },
        dungeons: None,
        slayer: SkyblockSlayers {
            zombie: slayer(0),
            spider: slayer(0),
            wolf: slayer(0),
            enderman: slayer(0),
            blaze: slayer(0),
        },
    }
}

#[test]
fn valid_usernames_pass() {
    assert!(validate_username("a"));
    assert!(validate_username("Antonio32A"));
    assert!(validate_username("under_score"));
    assert!(validate_username("0123456789abcdef"));
}

#[test]
fn invalid_usernames_fail() {
    assert!(!validate_username(""));
    assert!(!validate_username("seventeen_letters"));
    assert!(!validate_username("with space"));
    assert!(!validate_username("dash-ed"));
    assert!(!validate_username("k\u{e4}se"));
    assert!(!validate_username("dot."));
}

#[test]
fn latest_profile_wins() {
    let resp = SkyblockProfilesResponse {
        status: 200,
        data: Some(vec![profile("Apple", 30), profile("Banana", 100), profile("Cherry", 70)]),
    };
    let picked = select_profile(resp).unwrap();
    assert_eq!(picked.name, "Banana");
    assert_eq!(picked.last_save, 100);
}

#[test]
fn latest_profile_tie_takes_the_last_listed() {
    let resp = SkyblockProfilesResponse {
        status: 200,
        data: Some(vec![profile("First", 100), profile("Second", 100), profile("Older", 50)]),
    };
    let picked = select_profile(resp).unwrap();
    assert_eq!(picked.name, "Second");
}

#[test]
fn empty_profile_list_is_an_empty_result() {
    let empty = SkyblockProfilesResponse { status: 200, data: Some(vec![]) };
    assert_eq!(select_profile(empty).unwrap_err(), PipelineError::EmptyResult);
    let missing = SkyblockProfilesResponse { status: 200, data: None };
    assert_eq!(select_profile(missing).unwrap_err(), PipelineError::EmptyResult);
}

#[test]
fn profile_envelope_status_is_checked() {
    let resp = SkyblockProfilesResponse { status: 404, data: Some(vec![profile("Apple", 1)]) };
    assert_eq!(select_profile(resp).unwrap_err(), PipelineError::UpstreamStatus(404));
}

#[test]
fn weight_envelope_outcomes() {
    let score = SkyblockLilyWeight { uuid: "u".to_string(), total: 9000, slayer: 1200 };
    let ok = SkyblockLilyWeightResponse { success: true, data: Some(score) };
    assert_eq!(select_weight(ok).unwrap().total, 9000);

    let failed = SkyblockLilyWeightResponse { success: false, data: None };
    assert_eq!(select_weight(failed).unwrap_err(), PipelineError::UpstreamFailure);

    let hollow = SkyblockLilyWeightResponse { success: true, data: None };
    assert_eq!(select_weight(hollow).unwrap_err(), PipelineError::EmptyResult);
}

fn avatar_png() -> Vec<u8> {
    let side = 50u32;
    let mut pixels = Vec::new();
    for _ in 0..side * side {
        pixels.extend_from_slice(&[9, 8, 7, 255]);
    }
    let card = skyblock_stats::bitmap::RgbaBitmap { pixels, width: side, height: side };
    skyblock_stats::delivery::finalize_card(card, "")
}

#[test]
fn a_full_set_of_inputs_assembles_a_card() {
    let player = Player { name: "Antonio32A".to_string(), id: "abc123".to_string() };
    let profiles = SkyblockProfilesResponse {
        status: 200,
        data: Some(vec![profile("Apple", 3), profile("Banana", 9)]),
    };
    let weight = SkyblockLilyWeightResponse {
        success: true,
        data: Some(SkyblockLilyWeight { uuid: "abc123".to_string(), total: 9000, slayer: 5 }),
    };
    let plan = skyblock_stats::card::assemble_card(&player, profiles, weight, &avatar_png())
        .expect("every input is usable");
    assert_eq!(plan.texts.len(), 30);
    assert_eq!(plan.texts[2].text, "Banana");
    assert_eq!(plan.avatar.width, 50);
    assert_eq!(plan.avatar.height, 50);
}

#[test]
fn a_failed_weight_envelope_fails_the_card() {
    let player = Player { name: "Antonio32A".to_string(), id: "abc123".to_string() };
    let profiles = SkyblockProfilesResponse { status: 200, data: Some(vec![profile("Apple", 3)]) };
    let weight = SkyblockLilyWeightResponse { success: false, data: None };
    let r = skyblock_stats::card::assemble_card(&player, profiles, weight, &avatar_png());
    assert_eq!(r.err().unwrap(), PipelineError::UpstreamFailure);
}

#[test]
fn undecodable_avatar_bytes_fail_the_card() {
    let player = Player { name: "Antonio32A".to_string(), id: "abc123".to_string() };
    let profiles = SkyblockProfilesResponse { status: 200, data: Some(vec![profile("Apple", 3)]) };
    let weight = SkyblockLilyWeightResponse {
        success: true,
        data: Some(SkyblockLilyWeight { uuid: "abc123".to_string(), total: 9000, slayer: 5 }),
    };
    let bytes = vec![0u8, 1, 2];
    let r = skyblock_stats::card::assemble_card(&player, profiles, weight, &bytes);
    assert_eq!(r.err().unwrap(), PipelineError::Decode);
}

#[test]
fn player_identity_round_trip() {
    let p = Player { name: "Antonio32A".to_string(), id: "abc123".to_string() };
    assert_eq!(p.name, "Antonio32A");
    assert_eq!(p.id, "abc123");
}
