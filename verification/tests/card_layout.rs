use skyblock_stats::layout::{
    resolve_x, texts_plan, Placement, TextColor, AVATAR_SIZE, AVATAR_X, AVATAR_Y, RIGHT_MARGIN,
    TEMPLATE_HEIGHT, TEMPLATE_WIDTH,
};
use skyblock_stats::model::{
    Player, SkyblockCatacombs, SkyblockDungeons, SkyblockLilyWeight, SkyblockNetworth,
    SkyblockProfile, SkyblockSenitherWeight, SkyblockSkill, SkyblockSkills, SkyblockSlayer,
    SkyblockSlayers, zero_dungeons,
};

fn skill(level: u16) -> SkyblockSkill {
    SkyblockSkill { xp: 0, level, xp_current: 0, xp_for_next: 0 }
}

fn slayer(xp: u64) -> SkyblockSlayer {
    SkyblockSlayer { xp, level: 0, xp_for_next: 0 }
}

fn sample_profile() -> SkyblockProfile {
    SkyblockProfile {
        username: "Antonio32A".to_string(),
        id: "profile-id".to_string(),
        name: "Peach".to_string(),
        last_save: 1,
        fairy_souls: 10,
        networth: SkyblockNetworth {
            no_inventory: None,
            total_networth: Some(1234567),
            purse: None,
            bank: None,
        },
        weight: SkyblockSenitherWeight { total_weight: 5430, total_weight_with_overflow: 6001 },
        skills: SkyblockSkills {
            farming: skill(20),
            mining: skill(30),
            combat: skill(40),
            foraging: skill(50),
            fishing: skill(60),
            enchanting: skill(70),
            alchemy: skill(80),
            carpentry: skill(12),
            runecrafting: skill(13),
            social: skill(14),
            taming: skill(10),
        },
        dungeons: Some(SkyblockDungeons {
            selected_class: Some("Mage".to_string()),
            secrets_found: 1500,
            catacombs: SkyblockCatacombs {
                skill: skill(25),
                highest_tier_completed: Some("7".to_string()),
            },
        }),
        slayer: SkyblockSlayers {
            zombie: slayer(999),
            spider: slayer(1500),
            wolf: slayer(2340000),
            enderman: slayer(0),
            blaze: slayer(1000000),
        },
    }
}

fn sample_player() -> Player {
    Player { name: "Antonio32A".to_string(), id: "abc123".to_string() }
}

fn sample_weight() -> SkyblockLilyWeight {
    SkyblockLilyWeight { uuid: "abc123".to_string(), total: 9000, slayer: 1200 }
}

#[test]
fn template_constants() {
    assert_eq!(TEMPLATE_WIDTH, 800);
    assert_eq!(TEMPLATE_HEIGHT, 400);
    assert_eq!(RIGHT_MARGIN, 15);
    assert_eq!(AVATAR_X, 20);
    assert_eq!(AVATAR_Y, 20);
    assert_eq!(AVATAR_SIZE, 50);
}

#[test]
fn colors() {
    assert_eq!(TextColor::Black.rgba(), (0, 0, 0, 255));
    assert_eq!(TextColor::LightGray.rgba(), (137, 137, 137, 255));
    assert_eq!(TextColor::DarkGray.rgba(), (100, 100, 100, 255));
}

#[test]
fn right_alignment_keeps_the_margin() {
    for width in [0u32, 1, 17, 100, 785, 786, 2000] {
        let x = resolve_x(Placement::RightEdge, width);
        assert_eq!(x as i64 + width as i64 + RIGHT_MARGIN as i64, TEMPLATE_WIDTH as i64);
    }
}

#[test]
fn centering_in_a_cell() {
    // A 10-wide text in a 40-wide cell sits 15 in.
    assert_eq!(resolve_x(Placement::Centered(520, 40), 10), 535);
    // A wider text sticks out: (40 - 45) / 2 truncates toward zero to -2.
    assert_eq!(resolve_x(Placement::Centered(520, 40), 45), 518);
    assert_eq!(resolve_x(Placement::Left(80), 1234), 80);
}

#[test]
fn the_plan_lists_every_text_in_drawing_order() {
    let player = sample_player();
    let profile = sample_profile();
    let weight = sample_weight();
    let texts = texts_plan(&player, &profile, &weight);
    assert_eq!(texts.len(), 30);

    assert_eq!(texts[0].text, "Antonio32A");
    assert_eq!(texts[0].y, 20);
    assert_eq!(texts[0].scale_px, 30);
    assert_eq!(texts[0].color, TextColor::Black);
    assert_eq!(texts[0].placement, Placement::Left(80));

    assert_eq!(texts[1].text, "abc123");
    assert_eq!(texts[1].scale_px, 20);
    assert_eq!(texts[1].color, TextColor::LightGray);

    assert_eq!(texts[2].text, "Peach");
    assert_eq!(texts[2].placement, Placement::RightEdge);

    assert_eq!(texts[3].text, "skyblock-stats.antonio32a.com");
    assert_eq!(texts[3].y, 50);
    assert_eq!(texts[3].placement, Placement::RightEdge);

    // The four labeled stat rows, 75 apart, values 30 below their labels.
    assert_eq!(texts[4].text, "Networth");
    assert_eq!(texts[4].y, 100);
    assert_eq!(texts[5].text, "1,234,567");
    assert_eq!(texts[5].y, 130);
    assert_eq!(texts[6].text, "Secrets");
    assert_eq!(texts[6].y, 175);
    assert_eq!(texts[7].text, "1,500");
    assert_eq!(texts[7].y, 205);
    assert_eq!(texts[8].text, "Senither Weight");
    assert_eq!(texts[8].y, 250);
    assert_eq!(texts[9].text, "5,430 (6,001)");
    assert_eq!(texts[9].y, 280);
    assert_eq!(texts[10].text, "Lily Weight");
    assert_eq!(texts[10].y, 325);
    assert_eq!(texts[11].text, "9,000");
    assert_eq!(texts[11].y, 355);

    // The skill grid: taming, farming, carpentry / mining, combat,
    // runecrafting / foraging, fishing, social / enchanting, alchemy,
    // catacombs.
    let grid: [(&str, i32, i32); 12] = [
        ("10", 520, 105),
        ("20", 630, 105),
        ("12", 740, 105),
        ("30", 520, 165),
        ("40", 630, 165),
        ("13", 740, 165),
        ("50", 520, 225),
        ("60", 630, 225),
        ("14", 740, 225),
        ("70", 520, 285),
        ("80", 630, 285),
        ("25", 740, 285),
    ];
    for (k, (text, x, y)) in grid.iter().enumerate() {
        let item = &texts[12 + k];
        assert_eq!(item.text, *text);
        assert_eq!(item.y, *y);
        assert_eq!(item.placement, Placement::Centered(*x, 40));
        assert_eq!(item.color, TextColor::DarkGray);
    }

    assert_eq!(texts[24].text, "Skill Average: 45.00");
    assert_eq!(texts[24].y, 345);
    assert_eq!(texts[24].placement, Placement::Centered(460, 320));

    let slayers: [(&str, i32); 5] =
        [("999.0", 105), ("1.5K", 165), ("2.3M", 225), ("0.0", 285), ("1.0M", 345)];
    for (k, (text, y)) in slayers.iter().enumerate() {
        let item = &texts[25 + k];
        assert_eq!(item.text, *text);
        assert_eq!(item.y, *y);
        assert_eq!(item.placement, Placement::Centered(350, 100));
    }
}

#[test]
fn a_profile_without_dungeons_shows_zeroes() {
    let player = sample_player();
    let mut profile = sample_profile();
    profile.dungeons = None;
    let weight = sample_weight();
    let texts = texts_plan(&player, &profile, &weight);
    assert_eq!(texts[7].text, "0");
    assert_eq!(texts[23].text, "0");
}

#[test]
fn the_zero_dungeon_record_is_all_zeroes() {
    let d = zero_dungeons();
    assert!(d.selected_class.is_none());
    assert_eq!(d.secrets_found, 0);
    assert_eq!(d.catacombs.skill.level, 0);
    assert_eq!(d.catacombs.skill.xp, 0);
    assert!(d.catacombs.highest_tier_completed.is_none());
}
