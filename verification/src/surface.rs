//! The lock surface of one output, and its size in pixels.

use vstd::prelude::*;

use crate::single;

verus! {

/// What is known of one output's lock surface.
#[derive(Clone, Copy, Debug, PartialEq, Eq, Structural)]
pub struct LockOutput {
    /// Logical width from the last configure, 0 until the first one arrives.
    pub width: u32,
    /// Logical height from the last configure, 0 until the first one arrives.
    pub height: u32,
    pub scale: i32,
    /// A buffer may not be attached before the first configure is acknowledged.
    pub configured: bool,
    /// Whether a renderer has been started on the surface.
    pub rendering: bool,
}

/// A surface that has just been created.
pub open spec fn fresh() -> LockOutput {
    LockOutput { width: 0, height: 0, scale: 1, configured: false, rendering: false }
}

/// `n` units at the given scale, in single precision.
pub open spec fn spec_scaled(n: int, scale: i32) -> int {
    single::single(n * single::single(scale as int))
}

/// `n` units at the given scale, in single precision.
pub(crate) fn scaled(n: i128, scale: i32) -> (r: i128)
    requires
        -0x100_0000_0000_0000 <= n <= 0x100_0000_0000_0000,
    ensures
        r == spec_scaled(n as int, scale),
        -0x1000_0000_0000_0000_0000_0000_0000 <= r <= 0x1000_0000_0000_0000_0000_0000_0000,
{
    let factor: i128 = single::to_single(scale as i128);
    proof {
        assert(-0x100_0000_0000_0000 * 0x1_0000_0000 <= n * factor <= 0x100_0000_0000_0000
            * 0x1_0000_0000) by (nonlinear_arith)
            requires
                -0x100_0000_0000_0000 <= n <= 0x100_0000_0000_0000,
                -0x1_0000_0000 <= factor <= 0x1_0000_0000,
        ;
    }
    single::to_single(n * factor)
}

/// The number of physical pixels in `logical` ones, kept within what a `u32` holds.
pub open spec fn spec_pixels(logical: u32, scale: i32) -> u32 {
    let n = spec_scaled(single::single(logical as int), scale);
    if n < 0 {
        0
    } else if n > u32::MAX {
        u32::MAX
    } else {
        n as u32
    }
}

/// The number of physical pixels in `logical` ones, saturating at both ends.
pub fn pixels(logical: u32, scale: i32) -> (n: u32)
    ensures
        n == spec_pixels(logical, scale),
{
    let n: i128 = scaled(single::to_single(logical as i128), scale);
    if n < 0 {
        0
    } else if n > u32::MAX as i128 {
        u32::MAX
    } else {
        n as u32
    }
}

/// The scale as it is announced for a buffer: what single precision holds of it, within an `i32`.
pub open spec fn spec_buffer_scale(scale: i32) -> i32 {
    let n = single::single(scale as int);
    if n > i32::MAX {
        i32::MAX
    } else if n < i32::MIN {
        i32::MIN
    } else {
        n as i32
    }
}

/// The scale as it is announced for a buffer.
pub fn buffer_scale(scale: i32) -> (n: i32)
    ensures
        n == spec_buffer_scale(scale),
{
    let n: i128 = single::to_single(scale as i128);
    if n > i32::MAX as i128 {
        i32::MAX
    } else if n < i32::MIN as i128 {
        i32::MIN
    } else {
        n as i32
    }
}

/// On a screen the pixels are the plain product: nothing is rounded or cut off while it stays
/// within 24 bits.
pub proof fn pixels_are_the_product(logical: u32, scale: i32)
    requires
        logical <= single::EXACT,
        0 <= scale <= single::EXACT,
        logical * scale <= single::EXACT,
    ensures
        spec_pixels(logical, scale) == logical * scale,
{
    single::single_is_exact(logical as int);
    single::single_is_exact(scale as int);
    assert(logical * scale >= 0) by (nonlinear_arith)
        requires
            logical >= 0,
            scale >= 0,
    ;
    single::single_is_exact(logical * scale);
}

/// The pixels are the product of what single precision holds of size and scale, rounded once more
/// and kept within 32 bits: nothing below zero, and no more than all of them.
pub proof fn pixels_are_the_rounded_product(logical: u32, scale: i32)
    ensures
        ({
            let product = single::single(
                single::single(logical as int) * single::single(scale as int),
            );
            &&& 0 <= product <= 0xffff_ffff ==> spec_pixels(logical, scale) == product
            &&& product < 0 ==> spec_pixels(logical, scale) == 0
            &&& product > 0xffff_ffff ==> spec_pixels(logical, scale) == 0xffff_ffff
        }),
{
}

/// No size at all has no pixels, nor has any size at a scale of zero or less; at a scale of one a
/// size within 24 bits is its own number of pixels.
pub proof fn pixels_at_plain_scales(logical: u32, scale: i32)
    ensures
        spec_pixels(0, scale) == 0,
        scale <= 0 ==> spec_pixels(logical, scale) == 0,
        logical <= 16777216 ==> spec_pixels(logical, 1) == logical,
{
    single::single_is_exact(0);
    single::single_is_exact(1);
    let l = single::single(logical as int);
    let f = single::single(scale as int);
    assert(0 * f == 0);
    single::single_sign(logical as int);
    single::single_sign(scale as int);
    if scale <= 0 {
        assert(l * f <= 0) by (nonlinear_arith)
            requires
                l >= 0,
                f <= 0,
        ;
        single::single_sign(l * f);
    }
    if logical <= 16777216 {
        single::single_is_exact(logical as int);
        assert(l * 1 == l);
    }
}

/// A scale within 24 bits is announced as it is, and any other as single precision holds it, kept
/// within 32 bits.
pub proof fn scale_is_announced(scale: i32)
    ensures
        -16777216 <= scale <= 16777216 ==> spec_buffer_scale(scale) == scale,
        -0x8000_0000 <= single::single(scale as int) <= 0x7fff_ffff ==> spec_buffer_scale(scale)
            == single::single(scale as int),
        single::single(scale as int) > 0x7fff_ffff ==> spec_buffer_scale(scale) == 0x7fff_ffff,
{
    if -16777216 <= scale <= 16777216 {
        single::single_is_exact(scale as int);
    }
}

/// A surface is painted exactly when it was configured and has a width and a height, however large
/// and at whatever scale.
pub proof fn drawable_means_configured_and_not_empty(out: LockOutput)
    ensures
        out.spec_drawable() <==> out.configured && out.width != 0 && out.height != 0,
        !fresh().spec_drawable(),
        !fresh().configured && !fresh().rendering,
        fresh().width == 0 && fresh().height == 0 && fresh().scale == 1,
{
}

impl LockOutput {
    /// Whether the surface can be painted: it was configured, to a size that is not empty.
    pub open spec fn spec_drawable(self) -> bool {
        self.configured && self.width > 0 && self.height > 0
    }

    /// A surface that has just been created.
    pub fn new() -> (out: LockOutput)
        ensures
            out == fresh(),
    {
        LockOutput { width: 0, height: 0, scale: 1, configured: false, rendering: false }
    }

    /// Whether the surface can be painted: it was configured, to a size that is not empty.
    pub fn drawable(&self) -> (b: bool)
        ensures
            b == self.spec_drawable(),
    {
        self.configured && self.width > 0 && self.height > 0
    }
}

} // verus!
