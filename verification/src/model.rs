//! The request-scoped data model: a resolved player identity, the envelopes
//! of the two stat services, and the profile data the card draws from.
//!
//! Fractional upstream fields that the card reads are held as integers, as
//! the card prints them: whole coins for net worth, whole points for the two
//! weight scores. Purely informational fractions (per-skill progress) are
//! not part of this model.

use vstd::prelude::*;

verus! {

/// A player identity resolved from a username by the directory service.
#[derive(Debug)]
pub struct Player {
    pub name: String,
    pub id: String,
}

/// The envelope of the profiles service: a status code and, when the lookup
/// succeeded, the player's game profiles.
#[derive(Debug)]
pub struct SkyblockProfilesResponse {
    pub status: u16,
    pub data: Option<Vec<SkyblockProfile>>,
}

/// One game-save snapshot of a player.
#[derive(Debug)]
pub struct SkyblockProfile {
    pub username: String,
    pub id: String,
    pub name: String,
    pub last_save: u64,
    pub fairy_souls: u16,
    pub networth: SkyblockNetworth,
    pub weight: SkyblockSenitherWeight,
    pub skills: SkyblockSkills,
    pub dungeons: Option<SkyblockDungeons>,
    pub slayer: SkyblockSlayers,
}

/// The net-worth summary of a profile. All amounts are whole coins; they are
/// absent when the upstream inventory computation was skipped.
#[derive(Debug)]
pub struct SkyblockNetworth {
    pub no_inventory: Option<bool>,
    pub total_networth: Option<i64>,
    pub purse: Option<i64>,
    pub bank: Option<i64>,
}

/// The Senither weight summary of a profile, in whole points.
#[derive(Debug)]
pub struct SkyblockSenitherWeight {
    pub total_weight: i32,
    pub total_weight_with_overflow: i32,
}

/// The eleven per-skill records of a profile.
#[derive(Debug)]
pub struct SkyblockSkills {
    pub farming: SkyblockSkill,
    pub mining: SkyblockSkill,
    pub combat: SkyblockSkill,
    pub foraging: SkyblockSkill,
    pub fishing: SkyblockSkill,
    pub enchanting: SkyblockSkill,
    pub alchemy: SkyblockSkill,
    pub carpentry: SkyblockSkill,
    pub runecrafting: SkyblockSkill,
    pub social: SkyblockSkill,
    pub taming: SkyblockSkill,
}

/// One skill record: cumulative experience, the integer level the card
/// shows, and the experience into the current level and required for the
/// next one.
#[derive(Debug)]
pub struct SkyblockSkill {
    pub xp: u64,
    pub level: u16,
    pub xp_current: u64,
    pub xp_for_next: u64,
}

/// The dungeon-run summary of a profile; absent for players who never
/// entered a dungeon, in which case the card substitutes [`zero_dungeons`].
#[derive(Debug)]
pub struct SkyblockDungeons {
    pub selected_class: Option<String>,
    pub secrets_found: u32,
    pub catacombs: SkyblockCatacombs,
}

/// The catacombs track of the dungeon summary.
#[derive(Debug)]
pub struct SkyblockCatacombs {
    pub skill: SkyblockSkill,
    pub highest_tier_completed: Option<String>,
}

/// The five per-category slayer records of a profile.
#[derive(Debug)]
pub struct SkyblockSlayers {
    pub zombie: SkyblockSlayer,
    pub spider: SkyblockSlayer,
    pub wolf: SkyblockSlayer,
    pub enderman: SkyblockSlayer,
    pub blaze: SkyblockSlayer,
}

/// One slayer record: cumulative experience, the level, and the experience
/// required for the next level.
#[derive(Debug)]
pub struct SkyblockSlayer {
    pub xp: u64,
    pub level: u16,
    pub xp_for_next: u64,
}

/// The envelope of the weight service: a success flag and, on success, the
/// computed weight score.
#[derive(Debug)]
pub struct SkyblockLilyWeightResponse {
    pub success: bool,
    pub data: Option<SkyblockLilyWeight>,
}

/// The computed weight score of a player, in whole points.
#[derive(Debug)]
pub struct SkyblockLilyWeight {
    pub uuid: String,
    pub total: i32,
    pub slayer: i32,
}

/// Does a skill record hold all zeroes?
pub open spec fn skill_is_zero(s: SkyblockSkill) -> bool {
    s.xp == 0 && s.level == 0 && s.xp_current == 0 && s.xp_for_next == 0
}

/// Does a dungeon summary hold no class, no secrets, and an all-zero
/// catacombs record?
pub open spec fn dungeons_are_zero(d: SkyblockDungeons) -> bool {
    &&& d.selected_class is None
    &&& d.secrets_found == 0
    &&& skill_is_zero(d.catacombs.skill)
    &&& d.catacombs.highest_tier_completed is None
}

/// The all-zero dungeon summary the card substitutes when a profile carries
/// none: no selected class, no secrets, an all-zero catacombs record.
pub fn zero_dungeons() -> (d: SkyblockDungeons)
    ensures
        dungeons_are_zero(d),
{
    SkyblockDungeons {
        selected_class: None,
        secrets_found: 0,
        catacombs: SkyblockCatacombs {
            skill: SkyblockSkill { xp: 0, level: 0, xp_current: 0, xp_for_next: 0 },
            highest_tier_completed: None,
        },
    }
}

} // verus!
