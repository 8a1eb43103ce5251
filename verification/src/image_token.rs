//! Token cost of an image attachment, by detail level and tiling.

use vstd::prelude::*;

use crate::entity::create_chat_completion::ImageUrlDetail;

verus! {

/// Cost of the downscaled base rendition.
pub const BASE_TOKENS: u32 = 85;

/// Cost of each 512-pixel tile.
pub const TOKENS_PER_TILE: u32 = 170;

/// Side length, in pixels, beyond which an image is first scaled down.
pub const HIGH_DETAIL_THRESHOLD: u32 = 2048;

/// Token cost of a high-detail image: scale to fit a 2048-pixel square, then
/// scale the short side to 768 pixels, then count 512-pixel tiles; the short
/// side always spans two tiles. A degenerate or overlarge image saturates.
pub open spec fn spec_high_detail_tokens(w: u32, h: u32) -> u32 {
    let mn = if w <= h {
        w as int
    } else {
        h as int
    };
    let mx = if w <= h {
        h as int
    } else {
        w as int
    };
    if mn == 0 {
        u32::MAX
    } else {
        let tiles = (3 * mx + 2 * mn - 1) / (2 * mn);
        let total = 85 + 340 * tiles;
        if total > u32::MAX {
            u32::MAX
        } else {
            total as u32
        }
    }
}

/// Token cost of an image, per detail level: low detail costs the base alone;
/// otherwise an image within the threshold costs one tile per 512-pixel
/// square, and a larger one the high-detail cost.
pub open spec fn spec_image_tokens(w: u32, h: u32, detail: Option<ImageUrlDetail>) -> u32 {
    match detail {
        Some(ImageUrlDetail::Low) => BASE_TOKENS,
        Some(ImageUrlDetail::High) => spec_high_detail_tokens(w, h),
        _ => {
            let mx = if w <= h {
                h
            } else {
                w
            };
            if mx < HIGH_DETAIL_THRESHOLD {
                let tw = (w + 511) / 512;
                let th = (h + 511) / 512;
                let tiles = tw * th;
                (85 + 170 * tiles) as u32
            } else {
                spec_high_detail_tokens(w, h)
            }
        },
    }
}

fn high_detail_tokens(w: u32, h: u32) -> (r: u32)
    ensures
        r == spec_high_detail_tokens(w, h),
{
    let mn: u64 = if w <= h {
        w as u64
    } else {
        h as u64
    };
    let mx: u64 = if w <= h {
        h as u64
    } else {
        w as u64
    };
    if mn == 0 {
        u32::MAX
    } else {
        let tiles: u64 = (3 * mx + 2 * mn - 1) / (2 * mn);
        let total: u64 = 85 + 340 * tiles;
        if total > u32::MAX as u64 {
            u32::MAX
        } else {
            total as u32
        }
    }
}

/// Token cost of an image of the given pixel dimensions at the given detail
/// level.
pub fn get_image_tokens(image: (u32, u32), detail: &Option<ImageUrlDetail>) -> (r: u32)
    ensures
        r == spec_image_tokens(image.0, image.1, *detail),
{
    let (w, h) = image;
    match detail {
        Some(ImageUrlDetail::Low) => BASE_TOKENS,
        Some(ImageUrlDetail::High) => high_detail_tokens(w, h),
        _ => {
            let mx = if w <= h {
                h
            } else {
                w
            };
            if mx < HIGH_DETAIL_THRESHOLD {
                proof {
                    assert(w < 2048 && h < 2048);
                }
                let tw = (w + 511) / 512;
                let th = (h + 511) / 512;
                proof {
                    assert(tw <= 4 && th <= 4);
                    assert(tw * th <= 16) by (nonlinear_arith)
                        requires
                            0 <= tw <= 4,
                            0 <= th <= 4,
                    ;
                }
                let tiles = tw * th;
                85 + 170 * tiles
            } else {
                high_detail_tokens(w, h)
            }
        },
    }
}

} // verus!
