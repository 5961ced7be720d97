//! The card layout: which texts the card draws, where, in which color and
//! at which scale, against the fixed 800 by 400 template. Text is placed by
//! its measured pixel width, which the caller supplies; the arithmetic that
//! turns a width into an x-origin is verified here.

use vstd::prelude::*;
use crate::model::{Player, SkyblockProfile, SkyblockLilyWeight};
use crate::textnum::{
    dec_rep, format_grouped_i64, format_grouped_u64, format_slayer_xp, format_u64, grouped_rep,
    networth_rep, networth_text, senither_rep, senither_text, signed_grouped_rep,
    skill_average_rep, skill_average_text, slayer_rep,
};
use crate::model::zero_dungeons;

verus! {

/// The width of the template bitmap, in pixels.
pub const TEMPLATE_WIDTH: u32 = 800;

/// The height of the template bitmap, in pixels.
pub const TEMPLATE_HEIGHT: u32 = 400;

/// The margin kept between a right-aligned text and the template's right
/// edge, in pixels.
pub const RIGHT_MARGIN: u32 = 15;

/// The x offset at which the avatar is overlaid on the template.
pub const AVATAR_X: i64 = 20;

/// The y offset at which the avatar is overlaid on the template.
pub const AVATAR_Y: i64 = 20;

/// The pixel size the avatar service is asked for.
pub const AVATAR_SIZE: u32 = 50;

/// One of the exactly three colors the card draws text in.
#[derive(Clone, Copy, Debug, PartialEq, Eq, Structural)]
pub enum TextColor {
    Black,
    LightGray,
    DarkGray,
}

impl TextColor {
    /// The red, green, blue, and alpha channels of this color.
    pub fn rgba(&self) -> (c: (u8, u8, u8, u8))
        ensures
            *self == TextColor::Black ==> c == (0u8, 0u8, 0u8, 255u8),
            *self == TextColor::LightGray ==> c == (137u8, 137u8, 137u8, 255u8),
            *self == TextColor::DarkGray ==> c == (100u8, 100u8, 100u8, 255u8),
    {
        match self {
            TextColor::Black => (0, 0, 0, 255),
            TextColor::LightGray => (137, 137, 137, 255),
            TextColor::DarkGray => (100, 100, 100, 255),
        }
    }
}

/// How a text's x-origin is found once its pixel width is measured: at a
/// fixed x, against the template's right edge, or centered in a cell of the
/// given width that starts at the given anchor.
#[derive(Clone, Copy, Debug, PartialEq, Eq, Structural)]
pub enum Placement {
    Left(i32),
    RightEdge,
    Centered(i32, u32),
}

/// One text the card draws: the string, its y-origin, its point scale, its
/// color, and how its x-origin is found.
pub struct TextItem {
    pub text: String,
    pub y: i32,
    pub scale_px: u32,
    pub color: TextColor,
    pub placement: Placement,
}

/// The offset that centers a text of the given width within a cell of the
/// given width, each measured in pixels. A text wider than its cell sticks
/// out to the left, half the excess on each side.
pub open spec fn center_offset(cell: int, width: int) -> int {
    if width <= cell {
        (cell - width) / 2
    } else {
        -((width - cell) / 2)
    }
}

/// The x-origin of a text of the given measured width under the given
/// placement.
pub open spec fn resolved_x(p: Placement, width: int) -> int {
    match p {
        Placement::Left(x) => x as int,
        Placement::RightEdge => TEMPLATE_WIDTH - RIGHT_MARGIN - width,
        Placement::Centered(anchor, cell) => anchor + center_offset(cell as int, width),
    }
}

/// A placement whose x-origins stay within machine range for any measured
/// width up to `2^30`.
pub open spec fn placement_wf(p: Placement) -> bool {
    match p {
        Placement::Left(_) => true,
        Placement::RightEdge => true,
        Placement::Centered(anchor, cell) => -1000000 <= anchor <= 1000000 && cell <= 1000000,
    }
}

/// Right-aligned text keeps exactly the fixed margin to the template's
/// right edge: the x-origin, the measured width, and the margin always add
/// up to the template width.
pub proof fn lemma_right_alignment(width: int)
    ensures
        resolved_x(Placement::RightEdge, width) + width + RIGHT_MARGIN == TEMPLATE_WIDTH,
{
}

/// Finds the x-origin of a text from its placement and its measured pixel
/// width.
pub fn resolve_x(p: Placement, width: u32) -> (x: i32)
    requires
        placement_wf(p),
        width <= 0x40000000,
    ensures
        x as int == resolved_x(p, width as int),
{
    match p {
        Placement::Left(x) => x,
        Placement::RightEdge => {
            if width <= 785 {
                (785 - width) as i32
            } else {
                let over = width - 785;
                -(over as i32)
            }
        },
        Placement::Centered(anchor, cell) => {
            if width <= cell {
                let off = (cell - width) / 2;
                anchor + off as i32
            } else {
                let off = (width - cell) / 2;
                anchor - off as i32
            }
        },
    }
}

/// The number of secrets the card shows for a profile: those of its dungeon
/// summary, or zero when the profile carries none.
pub open spec fn shown_secrets(p: SkyblockProfile) -> u32 {
    match p.dungeons {
        Some(d) => d.secrets_found,
        None => 0,
    }
}

/// The catacombs level the card shows for a profile: that of its dungeon
/// summary, or zero when the profile carries none.
pub open spec fn shown_cata_level(p: SkyblockProfile) -> u16 {
    match p.dungeons {
        Some(d) => d.catacombs.skill.level,
        None => 0,
    }
}

/// Every text of the card, each with its string, position, scale, color,
/// and placement, in drawing order.
pub open spec fn plan_matches(
    texts: Seq<TextItem>,
    player: Player,
    profile: SkyblockProfile,
    weight: SkyblockLilyWeight,
) -> bool {
    &&& texts.len() == 30
    &&& is_text(texts[0], player.name@, 20, 30, TextColor::Black, Placement::Left(80))
    &&& is_text(texts[1], player.id@, 50, 20, TextColor::LightGray, Placement::Left(80))
    &&& is_text(texts[2], profile.name@, 20, 30, TextColor::DarkGray, Placement::RightEdge)
    &&& is_text(
        texts[3],
        "skyblock-stats.antonio32a.com"@,
        50,
        20,
        TextColor::LightGray,
        Placement::RightEdge,
    )
    &&& is_text(texts[4], "Networth"@, 100, 30, TextColor::Black, Placement::Left(20))
    &&& is_text(
        texts[5],
        networth_rep(profile.networth),
        130,
        30,
        TextColor::DarkGray,
        Placement::Left(20),
    )
    &&& is_text(texts[6], "Secrets"@, 175, 30, TextColor::Black, Placement::Left(20))
    &&& is_text(
        texts[7],
        grouped_rep(shown_secrets(profile) as nat),
        205,
        30,
        TextColor::DarkGray,
        Placement::Left(20),
    )
    &&& is_text(texts[8], "Senither Weight"@, 250, 30, TextColor::Black, Placement::Left(20))
    &&& is_text(
        texts[9],
        senither_rep(profile.weight),
        280,
        30,
        TextColor::DarkGray,
        Placement::Left(20),
    )
    &&& is_text(texts[10], "Lily Weight"@, 325, 30, TextColor::Black, Placement::Left(20))
    &&& is_text(
        texts[11],
        signed_grouped_rep(weight.total as int),
        355,
        30,
        TextColor::DarkGray,
        Placement::Left(20),
    )
    &&& is_level(texts[12], profile.skills.taming.level, 520, 105)
    &&& is_level(texts[13], profile.skills.farming.level, 630, 105)
    &&& is_level(texts[14], profile.skills.carpentry.level, 740, 105)
    &&& is_level(texts[15], profile.skills.mining.level, 520, 165)
    &&& is_level(texts[16], profile.skills.combat.level, 630, 165)
    &&& is_level(texts[17], profile.skills.runecrafting.level, 740, 165)
    &&& is_level(texts[18], profile.skills.foraging.level, 520, 225)
    &&& is_level(texts[19], profile.skills.fishing.level, 630, 225)
    &&& is_level(texts[20], profile.skills.social.level, 740, 225)
    &&& is_level(texts[21], profile.skills.enchanting.level, 520, 285)
    &&& is_level(texts[22], profile.skills.alchemy.level, 630, 285)
    &&& is_level(texts[23], shown_cata_level(profile), 740, 285)
    &&& is_text(
        texts[24],
        skill_average_rep(profile.skills),
        345,
        30,
        TextColor::DarkGray,
        Placement::Centered(460, 320),
    )
    &&& is_slayer(texts[25], profile.slayer.zombie.xp, 105)
    &&& is_slayer(texts[26], profile.slayer.spider.xp, 165)
    &&& is_slayer(texts[27], profile.slayer.wolf.xp, 225)
    &&& is_slayer(texts[28], profile.slayer.enderman.xp, 285)
    &&& is_slayer(texts[29], profile.slayer.blaze.xp, 345)
}

/// One text of the card holds the given string, position, scale, color, and
/// placement.
pub open spec fn is_text(
    t: TextItem,
    s: Seq<char>,
    y: int,
    scale: int,
    color: TextColor,
    place: Placement,
) -> bool {
    &&& t.text@ == s
    &&& t.y == y
    &&& t.scale_px == scale
    &&& t.color == color
    &&& t.placement == place
}

/// A skill level of the grid: its decimal text, dark gray at scale 30,
/// centered in the 40-pixel cell at the given anchor.
pub open spec fn is_level(t: TextItem, level: u16, x: int, y: int) -> bool {
    is_text(t, dec_rep(level as nat), y, 30, TextColor::DarkGray, Placement::Centered(x as i32, 40))
}

/// A slayer value of the column: its shorthand text, dark gray at scale 30,
/// centered in the 100-pixel cell anchored at x 350.
pub open spec fn is_slayer(t: TextItem, xp: u64, y: int) -> bool {
    is_text(t, slayer_rep(xp as nat), y, 30, TextColor::DarkGray, Placement::Centered(350, 100))
}

/// Lays out every text of the card for the given player, profile, and
/// weight score, in drawing order. A profile without a dungeon summary is
/// shown with the all-zero one.
pub fn texts_plan(
    player: &Player,
    profile: &SkyblockProfile,
    weight: &SkyblockLilyWeight,
) -> (texts: Vec<TextItem>)
    ensures
        plan_matches(texts@, *player, *profile, *weight),
{
    let zeroes = zero_dungeons();
    let dungeons = match &profile.dungeons {
        Some(d) => d,
        None => &zeroes,
    };
    let mut texts: Vec<TextItem> = Vec::new();
    texts.push(
        TextItem {
            text: player.name.clone(),
            y: 20,
            scale_px: 30,
            color: TextColor::Black,
            placement: Placement::Left(80),
        },
    );
    texts.push(
        TextItem {
            text: player.id.clone(),
            y: 50,
            scale_px: 20,
            color: TextColor::LightGray,
            placement: Placement::Left(80),
        },
    );
    texts.push(
        TextItem {
            text: profile.name.clone(),
            y: 20,
            scale_px: 30,
            color: TextColor::DarkGray,
            placement: Placement::RightEdge,
        },
    );
    texts.push(
        TextItem {
            text: String::from_str("skyblock-stats.antonio32a.com"),
            y: 50,
            scale_px: 20,
            color: TextColor::LightGray,
            placement: Placement::RightEdge,
        },
    );
    texts.push(
        TextItem {
            text: String::from_str("Networth"),
            y: 100,
            scale_px: 30,
            color: TextColor::Black,
            placement: Placement::Left(20),
        },
    );
    texts.push(
        TextItem {
            text: networth_text(&profile.networth),
            y: 130,
            scale_px: 30,
            color: TextColor::DarkGray,
            placement: Placement::Left(20),
        },
    );
    texts.push(
        TextItem {
            text: String::from_str("Secrets"),
            y: 175,
            scale_px: 30,
            color: TextColor::Black,
            placement: Placement::Left(20),
        },
    );
    texts.push(
        TextItem {
            text: format_grouped_u64(dungeons.secrets_found as u64),
            y: 205,
            scale_px: 30,
            color: TextColor::DarkGray,
            placement: Placement::Left(20),
        },
    );
    texts.push(
        TextItem {
            text: String::from_str("Senither Weight"),
            y: 250,
            scale_px: 30,
            color: TextColor::Black,
            placement: Placement::Left(20),
        },
    );
    texts.push(
        TextItem {
            text: senither_text(&profile.weight),
            y: 280,
            scale_px: 30,
            color: TextColor::DarkGray,
            placement: Placement::Left(20),
        },
    );
    texts.push(
        TextItem {
            text: String::from_str("Lily Weight"),
            y: 325,
            scale_px: 30,
            color: TextColor::Black,
            placement: Placement::Left(20),
        },
    );
    texts.push(
        TextItem {
            text: format_grouped_i64(weight.total as i64),
            y: 355,
            scale_px: 30,
            color: TextColor::DarkGray,
            placement: Placement::Left(20),
        },
    );
    push_level(&mut texts, profile.skills.taming.level, 520, 105);
    push_level(&mut texts, profile.skills.farming.level, 630, 105);
    push_level(&mut texts, profile.skills.carpentry.level, 740, 105);
    push_level(&mut texts, profile.skills.mining.level, 520, 165);
    push_level(&mut texts, profile.skills.combat.level, 630, 165);
    push_level(&mut texts, profile.skills.runecrafting.level, 740, 165);
    push_level(&mut texts, profile.skills.foraging.level, 520, 225);
    push_level(&mut texts, profile.skills.fishing.level, 630, 225);
    push_level(&mut texts, profile.skills.social.level, 740, 225);
    push_level(&mut texts, profile.skills.enchanting.level, 520, 285);
    push_level(&mut texts, profile.skills.alchemy.level, 630, 285);
    push_level(&mut texts, dungeons.catacombs.skill.level, 740, 285);
    texts.push(
        TextItem {
            text: skill_average_text(&profile.skills),
            y: 345,
            scale_px: 30,
            color: TextColor::DarkGray,
            placement: Placement::Centered(460, 320),
        },
    );
    push_slayer(&mut texts, profile.slayer.zombie.xp, 105);
    push_slayer(&mut texts, profile.slayer.spider.xp, 165);
    push_slayer(&mut texts, profile.slayer.wolf.xp, 225);
    push_slayer(&mut texts, profile.slayer.enderman.xp, 285);
    push_slayer(&mut texts, profile.slayer.blaze.xp, 345);
    texts
}

/// Appends one skill level of the grid to the plan.
fn push_level(texts: &mut Vec<TextItem>, level: u16, x: i32, y: i32)
    ensures
        final(texts)@ == old(texts)@.push(final(texts)@.last()),
        final(texts)@.len() == old(texts)@.len() + 1,
        is_level(final(texts)@.last(), level, x as int, y as int),
{
    texts.push(
        TextItem {
            text: format_u64(level as u64),
            y,
            scale_px: 30,
            color: TextColor::DarkGray,
            placement: Placement::Centered(x, 40),
        },
    );
}

/// Appends one slayer value of the column to the plan.
fn push_slayer(texts: &mut Vec<TextItem>, xp: u64, y: i32)
    ensures
        final(texts)@ == old(texts)@.push(final(texts)@.last()),
        final(texts)@.len() == old(texts)@.len() + 1,
        is_slayer(final(texts)@.last(), xp, y as int),
{
    texts.push(
        TextItem {
            text: format_slayer_xp(xp),
            y,
            scale_px: 30,
            color: TextColor::DarkGray,
            placement: Placement::Centered(350, 100),
        },
    );
}

} // verus!
