//! Delivery of a finished card: downscale it for the one consumer whose
//! signature box is smaller than the template, then encode it as PNG.

use vstd::prelude::*;
use crate::bitmap::{encode_png_rgba, nearest_scaled, png_encoding, resize_rgba, RgbaBitmap};

verus! {

/// Does this user agent belong to the forum-signature renderer, the one
/// consumer that needs a downscaled card? The match is exact.
pub open spec fn wants_downscale(user_agent: Seq<char>) -> bool {
    user_agent == "XenForo/2.x (https://hypixel.net)"@
}

/// Decides whether the card must be downscaled for this consumer.
pub fn should_downscale(user_agent: &str) -> (r: bool)
    ensures
        r == wants_downscale(user_agent@),
{
    let agent = String::from_str(user_agent);
    let signature = String::from_str("XenForo/2.x (https://hypixel.net)");
    agent == signature
}

/// An extent scaled down by the fixed forum ratio: divided by 1.35, that is
/// multiplied by 20/27, rounded down.
pub open spec fn downscaled_extent(d: int) -> int {
    d * 20 / 27
}

/// Scales one extent of the card down by the fixed forum ratio.
pub fn downscale_extent(d: u32) -> (r: u32)
    ensures
        r == downscaled_extent(d as int),
{
    let wide = d as u64 * 20 / 27;
    proof {
        vstd::arithmetic::div_mod::lemma_div_is_ordered(
            d as int * 20,
            d as int * 27,
            27,
        );
        vstd::arithmetic::div_mod::lemma_div_multiples_vanish(d as int, 27);
    }
    wide as u32
}

/// Encodes the finished card as a PNG. When the consumer is the
/// forum-signature renderer the card is first downscaled by the fixed
/// ratio; for every other consumer the card keeps the template dimensions.
pub fn finalize_card(card: RgbaBitmap, user_agent: &str) -> (r: Vec<u8>)
    requires
        card.wf(),
        card.width >= 2,
        card.height >= 2,
    ensures
        wants_downscale(user_agent@) ==> r@ == png_encoding(
            nearest_scaled(
                card.pixels@,
                card.width,
                card.height,
                downscaled_extent(card.width as int) as u32,
                downscaled_extent(card.height as int) as u32,
            ),
            downscaled_extent(card.width as int) as u32,
            downscaled_extent(card.height as int) as u32,
        ),
        !wants_downscale(user_agent@) ==> r@ == png_encoding(
            card.pixels@,
            card.width,
            card.height,
        ),
{
    if should_downscale(user_agent) {
        let new_width = downscale_extent(card.width);
        let new_height = downscale_extent(card.height);
        proof {
            assert(card.width as int * 20 / 27 >= 1) by (nonlinear_arith)
                requires card.width >= 2;
            assert(card.height as int * 20 / 27 >= 1) by (nonlinear_arith)
                requires card.height >= 2;
        }
        let scaled = resize_rgba(&card, new_width, new_height);
        encode_png_rgba(&scaled)
    } else {
        encode_png_rgba(&card)
    }
}

} // verus!
