use skyblock_stats::bitmap::{decode_avatar, RgbaBitmap};
use skyblock_stats::delivery::{downscale_extent, finalize_card, should_downscale};
use skyblock_stats::errors::PipelineError;

const FORUM_AGENT: &str = "XenForo/2.x (https://hypixel.net)";

fn solid_card(width: u32, height: u32, rgba: [u8; 4]) -> RgbaBitmap {
    let mut pixels = Vec::with_capacity((width * height * 4) as usize);
    for _ in 0..width * height {
        pixels.extend_from_slice(&rgba);
    }
    RgbaBitmap { pixels, width, height }
}

#[test]
fn only_the_forum_signature_agent_downscales() {
    assert!(should_downscale(FORUM_AGENT));
    assert!(!should_downscale(""));
    assert!(!should_downscale("Mozilla/5.0"));
    assert!(!should_downscale("XenForo/2.x (https://hypixel.net) extra"));
    assert!(!should_downscale("xenforo/2.x (https://hypixel.net)"));
}

#[test]
fn downscaled_extents_match_the_template() {
    assert_eq!(downscale_extent(800), 592);
    assert_eq!(downscale_extent(400), 296);
    assert_eq!(downscale_extent(2), 1);
}

#[test]
fn a_plain_consumer_gets_the_full_size_png() {
    let card = solid_card(800, 400, [1, 2, 3, 255]);
    let expected = card.pixels.clone();
    let png = finalize_card(card, "Mozilla/5.0");
    let decoded = image::load_from_memory(&png).expect("a valid PNG");
    let rgba = decoded.to_rgba8();
    assert_eq!(rgba.dimensions(), (800, 400));
    assert_eq!(rgba.as_raw(), &expected);
}

#[test]
fn the_forum_signature_gets_a_downscaled_png() {
    let card = solid_card(800, 400, [10, 20, 30, 255]);
    let png = finalize_card(card, FORUM_AGENT);
    let decoded = image::load_from_memory(&png).expect("a valid PNG");
    assert_eq!(decoded.to_rgba8().dimensions(), (592, 296));
}

#[test]
fn avatar_bytes_round_trip_through_the_decoder() {
    let avatar = solid_card(50, 50, [200, 100, 50, 255]);
    let expected = avatar.pixels.clone();
    let png = finalize_card(avatar, "");
    let decoded = decode_avatar(&png).expect("a decodable avatar");
    assert_eq!(decoded.width, 50);
    assert_eq!(decoded.height, 50);
    assert_eq!(decoded.pixels, expected);
}

#[test]
fn garbage_avatar_bytes_are_a_decode_error() {
    let garbage = vec![1u8, 2, 3, 4, 5, 6, 7, 8];
    assert_eq!(decode_avatar(&garbage).unwrap_err(), PipelineError::Decode);
    let empty: Vec<u8> = Vec::new();
    assert_eq!(decode_avatar(&empty).unwrap_err(), PipelineError::Decode);
}
