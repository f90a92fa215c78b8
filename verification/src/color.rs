//! The colorizer: the pure mapping from a discrete cell state to an RGBA
//! pixel, by linear grayscale or by a lookup in the Turbo perceptual colormap.

use vstd::prelude::*;
use vstd::arithmetic::div_mod::lemma_div_is_ordered;

use crate::AutomatonError;

verus! {

/// One visualization pixel, four 8-bit channels.
#[derive(Clone, Copy, Debug, PartialEq, Eq, Structural)]
pub struct Rgba {
    pub r: u8,
    pub g: u8,
    pub b: u8,
    pub a: u8,
}

/// How a cell state is turned into a pixel.
#[derive(Clone, Copy, Debug, PartialEq, Eq, Structural)]
pub enum ColorMode {
    /// One linear gray channel, replicated over red, green and blue.
    Grayscale,
    /// A lookup of `state / count` in the Turbo perceptual colormap.
    Colormap,
}

/// The grayscale channel for `state` of `count` states: `state * 255 / count`,
/// rounded to the nearest integer (halves up), written over integers as
/// `(2 * state * 255 + count) / (2 * count)`.
pub open spec fn gray_level(state: int, count: int) -> int {
    (510 * state + count) / (2 * count)
}

/// What `colorous::TURBO.eval_rational(i, n)` returns: the Turbo colormap
/// sampled at the fixed rational position determined by `i` and `n`.
pub uninterp spec fn turbo_sample(i: int, n: int) -> (u8, u8, u8);

/// Relies on `colorous::Gradient::eval_rational` on the `TURBO` gradient: for
/// a positive `n` it does not panic, and it returns a color that is a fixed
/// pure function of its two integer arguments alone (the gradient sampled at
/// `i/(n-1)`, with `i` first clamped below `n`).
#[verifier::external_body]
fn turbo_eval_rational(i: u32, n: u32) -> (r: (u8, u8, u8))
    requires
        1 <= n,
    ensures
        r == turbo_sample(i as int, n as int),
{
    let c = colorous::TURBO.eval_rational(i as usize, n as usize);
    (c.r, c.g, c.b)
}

/// The pixel `to_pixel` yields for state `state` under a positive state count
/// `count`: the rounded gray level replicated over the color channels, or the
/// Turbo colormap looked up at `state / count` (a sample position with
/// denominator `count + 1` in the rational form the lookup table takes);
/// alpha is fixed at 255 in both modes.
pub open spec fn pixel_spec(state: u32, count: u32, mode: ColorMode) -> Rgba {
    match mode {
        ColorMode::Grayscale => {
            let ch = gray_level(state as int, count as int) as u8;
            Rgba { r: ch, g: ch, b: ch, a: 255 }
        },
        ColorMode::Colormap => {
            let c = turbo_sample(state as int, count as int + 1);
            Rgba { r: c.0, g: c.1, b: c.2, a: 255 }
        },
    }
}

/// The gray level of an in-range state fits an 8-bit channel.
pub proof fn lemma_gray_in_range(state: int, count: int)
    requires
        1 <= count,
        0 <= state < count,
    ensures
        0 <= gray_level(state, count) <= 255,
{
    assert(0 <= (510 * state + count) / (2 * count) <= 255) by (nonlinear_arith)
        requires
            1 <= count,
            0 <= state < count,
    ;
}

/// For a fixed positive state count, the grayscale channel value never
/// decreases as the state increases.
pub proof fn lemma_gray_monotone(s1: int, s2: int, count: int)
    requires
        1 <= count,
        0 <= s1 <= s2,
    ensures
        gray_level(s1, count) <= gray_level(s2, count),
{
    lemma_div_is_ordered(510 * s1 + count, 510 * s2 + count, 2 * count);
}

/// The same monotonicity at the pixel level: for in-range states under a
/// fixed positive state count, a larger state never yields a darker grayscale
/// pixel.
pub proof fn lemma_grayscale_pixel_monotone(s1: u32, s2: u32, count: u32)
    requires
        1 <= count,
        s1 <= s2,
        s2 < count,
    ensures
        pixel_spec(s1, count, ColorMode::Grayscale).r <= pixel_spec(
            s2,
            count,
            ColorMode::Grayscale,
        ).r,
{
    lemma_gray_in_range(s1 as int, count as int);
    lemma_gray_in_range(s2 as int, count as int);
    lemma_gray_monotone(s1 as int, s2 as int, count as int);
}

/// Maps one cell state to its RGBA pixel. Total over the in-range states of
/// any positive state count; a state count of zero is invalid input and is
/// rejected. A state count at the top of the machine's 32-bit range is ruled
/// out so that the colormap's sample denominator `count + 1` is representable.
pub fn to_pixel(state: u32, count: u32, mode: ColorMode) -> (r: Result<Rgba, AutomatonError>)
    requires
        1 <= count ==> state < count,
        mode == ColorMode::Colormap ==> count < u32::MAX,
    ensures
        count == 0 ==> r == Result::<Rgba, AutomatonError>::Err(AutomatonError::InvalidStateCount),
        1 <= count ==> r == Result::<Rgba, AutomatonError>::Ok(pixel_spec(state, count, mode)),
{
    if count == 0 {
        return Err(AutomatonError::InvalidStateCount);
    }
    match mode {
        ColorMode::Grayscale => {
            proof {
                lemma_gray_in_range(state as int, count as int);
            }
            let num: u64 = 510u64 * (state as u64) + (count as u64);
            let den: u64 = 2u64 * (count as u64);
            let ch: u8 = (num / den) as u8;
            Ok(Rgba { r: ch, g: ch, b: ch, a: 255 })
        },
        ColorMode::Colormap => {
            let c = turbo_eval_rational(state, count + 1);
            Ok(Rgba { r: c.0, g: c.1, b: c.2, a: 255 })
        },
    }
}

} // verus!
