//! Fitting a raster image to the thermal strip.
//!
//! The render width is always the strip constant; the render height follows
//! from the source's aspect ratio and is never chosen first.

use vstd::prelude::*;

verus! {

/// Printable width of the thermal strip, in hundredths of an inch.
pub const STRIP_WIDTH: u32 = 280;

/// The rectangle an image is drawn into, in hundredths of an inch.
#[derive(Clone, Copy, Debug, PartialEq, Eq, Structural)]
pub struct RenderSize {
    pub width: u32,
    pub height: u64,
}

/// The height that keeps the aspect ratio of a `width` x `height` source
/// once its width is set to the strip width, rounded down.
pub open spec fn scaled_height(width: nat, height: nat) -> nat
    recommends
        width > 0,
{
    (STRIP_WIDTH as nat * height) / width
}

/// The render rectangle of a decoded image, or `None` for an image without
/// width, which has no aspect ratio to keep.
pub fn render_size(width: u32, height: u32) -> (size: Option<RenderSize>)
    ensures
        size is None <==> width == 0,
        width > 0 ==> size == Some(
            (RenderSize { width: STRIP_WIDTH, height: scaled_height(width as nat, height as nat) as u64 }),
        ),
        width > 0 ==> size->0.height == scaled_height(width as nat, height as nat),
{
    if width == 0 {
        return None;
    }
    assert(STRIP_WIDTH as u64 * height as u64 <= 280 * 0xffff_ffff) by (nonlinear_arith)
        requires
            STRIP_WIDTH == 280,
            height <= 0xffff_ffff,
    ;
    let wide: u64 = STRIP_WIDTH as u64 * height as u64;
    let scaled: u64 = wide / width as u64;
    Some(RenderSize { width: STRIP_WIDTH, height: scaled })
}

/// Uniform scaling: the render rectangle has the source's aspect ratio up to
/// the rounding of the height, which is off by less than one unit and never
/// above the exact value.
pub proof fn lemma_aspect_ratio_kept(width: nat, height: nat)
    requires
        width > 0,
    ensures
        scaled_height(width, height) * width <= STRIP_WIDTH * height,
        STRIP_WIDTH * height < (scaled_height(width, height) + 1) * width,
{
    let n = STRIP_WIDTH as nat * height;
    let q = scaled_height(width, height);
    assert(n == width * (n / width) + n % width) by {
        vstd::arithmetic::div_mod::lemma_fundamental_div_mod(n as int, width as int);
    }
    assert(0 <= n % width < width) by (nonlinear_arith)
        requires
            width > 0,
    ;
    assert(q * width == width * q) by (nonlinear_arith);
    assert((q + 1) * width == width * q + width) by (nonlinear_arith);
}

} // verus!
