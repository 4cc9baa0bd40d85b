//! Fixed-point scalars, colors, points, and transforms.
//!
//! Every real-valued quantity in the pipeline (a color channel, an emission
//! strength, an index of refraction, a filter width) is carried as an `i64`
//! count of thousandths: the value `v` stands for the real number
//! `v / FP_ONE`. The numerical subsystems that consume these values are
//! outside this crate; here they are only stored, compared, and scaled.

use vstd::arithmetic::div_mod::{lemma_div_is_ordered, lemma_div_pos_is_pos};
use vstd::arithmetic::mul::{lemma_mul_nonnegative, lemma_mul_upper_bound};
use vstd::prelude::*;

verus! {

/// One whole unit of the fixed-point encoding: the stored value `v` stands
/// for the real number `v / FP_ONE`.
pub const FP_ONE: i64 = 1000;

/// Largest fixed-point scalar a material record or light-scale factor may
/// hold (20 000 000 thousandths, i.e. the real value 20 000). The bound is
/// chosen so that a product of three in-range scalars, rescaled after each
/// step, still fits in an `i64`.
pub const SCALAR_MAX: i64 = 20_000_000;

/// A scalar field of a material record or a light-scale factor is
/// well-formed when it is non-negative and at most `SCALAR_MAX`.
pub open spec fn scalar_wf(v: i64) -> bool {
    0 <= v <= SCALAR_MAX
}

/// A point or direction in world space, in fixed-point coordinates.
#[derive(Clone, Copy, Debug, PartialEq, Eq, Structural)]
pub struct Vec3 {
    pub x: i64,
    pub y: i64,
    pub z: i64,
}

/// An RGB color triple in fixed-point channels; `FP_ONE` per channel is
/// full intensity white.
#[derive(Clone, Copy, Debug, PartialEq, Eq, Structural)]
pub struct Rgb {
    pub r: i64,
    pub g: i64,
    pub b: i64,
}

/// Every channel of the color is a well-formed scalar.
pub open spec fn rgb_wf(c: Rgb) -> bool {
    scalar_wf(c.r) && scalar_wf(c.g) && scalar_wf(c.b)
}

/// Full-intensity white, the albedo of the default matte fallback material.
pub open spec fn white_spec() -> Rgb {
    Rgb { r: FP_ONE, g: FP_ONE, b: FP_ONE }
}

/// Returns full-intensity white.
pub fn white() -> (c: Rgb)
    ensures
        c == white_spec(),
{
    Rgb { r: FP_ONE, g: FP_ONE, b: FP_ONE }
}

/// An object-to-world transform together with its inverse, both as 4x4
/// matrices in row-major order. The two matrices are supplied as a pair by
/// the ingestion side and are never split or recomputed here, so they stay
/// consistent by construction.
#[derive(Clone, Copy, Debug, PartialEq, Eq)]
pub struct Transform {
    pub m: [i64; 16],
    pub m_inv: [i64; 16],
}

/// The fixed-point product of `a` and `b`: the integer product rescaled by
/// `FP_ONE`, rounded toward zero.
pub open spec fn fixed_mul_spec(a: int, b: int) -> int {
    (a * b) / (FP_ONE as int)
}

/// Multiplies two non-negative fixed-point scalars.
pub fn fixed_mul(a: i64, b: i64) -> (r: i64)
    requires
        0 <= a,
        0 <= b,
        a * b <= i64::MAX,
    ensures
        r == fixed_mul_spec(a as int, b as int),
        0 <= r <= (a * b) / (FP_ONE as int),
{
    proof {
        lemma_mul_nonnegative(a as int, b as int);
        lemma_div_pos_is_pos(a * b, FP_ONE as int);
        lemma_div_is_ordered(0, a * b, FP_ONE as int);
    }
    (a * b) / FP_ONE
}

/// The color `c` with every channel rescaled by the fixed-point scalar `s`.
pub open spec fn rgb_scale_spec(c: Rgb, s: int) -> Rgb {
    Rgb {
        r: fixed_mul_spec(c.r as int, s) as i64,
        g: fixed_mul_spec(c.g as int, s) as i64,
        b: fixed_mul_spec(c.b as int, s) as i64,
    }
}

/// Scales every channel of a well-formed color by a well-formed scalar.
pub fn rgb_scale(c: Rgb, s: i64) -> (r: Rgb)
    requires
        rgb_wf(c),
        scalar_wf(s),
    ensures
        r == rgb_scale_spec(c, s as int),
        0 <= r.r <= (SCALAR_MAX * SCALAR_MAX) / (FP_ONE as int),
        0 <= r.g <= (SCALAR_MAX * SCALAR_MAX) / (FP_ONE as int),
        0 <= r.b <= (SCALAR_MAX * SCALAR_MAX) / (FP_ONE as int),
{
    proof {
        lemma_scaled_channel_bound(c.r as int, s as int);
        lemma_scaled_channel_bound(c.g as int, s as int);
        lemma_scaled_channel_bound(c.b as int, s as int);
    }
    Rgb { r: fixed_mul(c.r, s), g: fixed_mul(c.g, s), b: fixed_mul(c.b, s) }
}

/// A product of two in-range scalars fits in an `i64`, and its rescaled
/// value is bounded by the rescaled square of `SCALAR_MAX`.
proof fn lemma_scaled_channel_bound(a: int, s: int)
    requires
        0 <= a <= SCALAR_MAX,
        0 <= s <= SCALAR_MAX,
    ensures
        a * s <= SCALAR_MAX * SCALAR_MAX < i64::MAX,
        0 <= fixed_mul_spec(a, s) <= (SCALAR_MAX * SCALAR_MAX) / (FP_ONE as int),
{
    lemma_mul_upper_bound(a, SCALAR_MAX as int, s, SCALAR_MAX as int);
    lemma_mul_nonnegative(a, s);
    lemma_div_pos_is_pos(a * s, FP_ONE as int);
    lemma_div_is_ordered(0, a * s, FP_ONE as int);
    lemma_div_is_ordered(a * s, SCALAR_MAX * SCALAR_MAX, FP_ONE as int);
}

/// The radiance of an area light synthesized from an emissive material:
/// the record's color scaled by its emission strength, then by the global
/// light-scale factor.
pub open spec fn area_radiance_spec(c: Rgb, emission: int, light_scale: int) -> Rgb {
    rgb_scale_spec(rgb_scale_spec(c, emission), light_scale)
}

/// Computes `c * emission * light_scale` in fixed point.
pub fn area_radiance(c: Rgb, emission: i64, light_scale: i64) -> (r: Rgb)
    requires
        rgb_wf(c),
        scalar_wf(emission),
        scalar_wf(light_scale),
    ensures
        r == area_radiance_spec(c, emission as int, light_scale as int),
{
    let scaled = rgb_scale(c, emission);
    proof {
        lemma_radiance_channel_bound(scaled.r as int, light_scale as int);
        lemma_radiance_channel_bound(scaled.g as int, light_scale as int);
        lemma_radiance_channel_bound(scaled.b as int, light_scale as int);
    }
    Rgb {
        r: fixed_mul(scaled.r, light_scale),
        g: fixed_mul(scaled.g, light_scale),
        b: fixed_mul(scaled.b, light_scale),
    }
}

/// A channel already rescaled once (bounded by `SCALAR_MAX * SCALAR_MAX /
/// FP_ONE`) can be multiplied by one more in-range scalar without
/// overflowing an `i64`.
proof fn lemma_radiance_channel_bound(t: int, s: int)
    requires
        0 <= t <= (SCALAR_MAX * SCALAR_MAX) / (FP_ONE as int),
        0 <= s <= SCALAR_MAX,
    ensures
        t * s <= i64::MAX,
{
    assert((SCALAR_MAX * SCALAR_MAX) / (FP_ONE as int) == 400_000_000_000);
    lemma_mul_upper_bound(t, 400_000_000_000, s, SCALAR_MAX as int);
}

} // verus!
