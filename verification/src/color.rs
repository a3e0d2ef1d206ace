//! Exact rational RGBA colors.
//!
//! A color channel is the fraction `numerator / den`, shared denominator per
//! color, so linear interpolation between two colors at a fixed-point
//! fraction is exact: no channel is ever rounded.

use vstd::prelude::*;

verus! {

/// A bar value of `VALUE_SCALE` means "full" (a real value of 1.0).
pub const VALUE_SCALE: i64 = 1000;

/// Bound on every descriptor scalar (values, lengths, offsets, depths),
/// forced by machine arithmetic: all geometry products then fit in `i64`.
pub const SCALAR_LIMIT: i64 = 1048576;

/// Bound on a color channel numerator as written by a caller.
pub const CHANNEL_LIMIT: i64 = 1048576;

/// Bound on a color denominator as written by a caller.
pub const DEN_LIMIT: i64 = 1048576;

/// Bound on a channel numerator of any color the system ever stores,
/// including interpolated ones.
pub const CHANNEL_WIDE_LIMIT: i64 = 0x4000_0000_0000_0000;

/// Bound on a denominator of any color the system ever stores.
pub const DEN_WIDE_LIMIT: i64 = 0x4_0000_0000_0000;

/// An RGBA color as an exact rational: each channel is
/// `numerator / den`, with one denominator shared by all four channels.
#[derive(Clone, Copy, Debug, PartialEq, Eq)]
pub struct Rgba {
    pub red: i64,
    pub green: i64,
    pub blue: i64,
    pub alpha: i64,
    pub den: i64,
}

impl Rgba {
    /// Well-formed as a stored color: positive denominator, all numerators
    /// within the wide machine bounds.
    pub open spec fn wf(self) -> bool {
        &&& 1 <= self.den <= DEN_WIDE_LIMIT
        &&& -CHANNEL_WIDE_LIMIT <= self.red <= CHANNEL_WIDE_LIMIT
        &&& -CHANNEL_WIDE_LIMIT <= self.green <= CHANNEL_WIDE_LIMIT
        &&& -CHANNEL_WIDE_LIMIT <= self.blue <= CHANNEL_WIDE_LIMIT
        &&& -CHANNEL_WIDE_LIMIT <= self.alpha <= CHANNEL_WIDE_LIMIT
    }

    /// Well-formed as a caller-written color (a decoration's color): the
    /// narrow bounds under which interpolation cannot overflow.
    pub open spec fn narrow(self) -> bool {
        &&& 1 <= self.den <= DEN_LIMIT
        &&& -CHANNEL_LIMIT <= self.red <= CHANNEL_LIMIT
        &&& -CHANNEL_LIMIT <= self.green <= CHANNEL_LIMIT
        &&& -CHANNEL_LIMIT <= self.blue <= CHANNEL_LIMIT
        &&& -CHANNEL_LIMIT <= self.alpha <= CHANNEL_LIMIT
    }

    /// Two colors denote the same RGBA value: the channel fractions are
    /// equal as rationals (cross-multiplied).
    pub open spec fn equiv(self, other: Rgba) -> bool {
        &&& self.red * other.den == other.red * self.den
        &&& self.green * other.den == other.green * self.den
        &&& self.blue * other.den == other.blue * self.den
        &&& self.alpha * other.den == other.alpha * self.den
    }

    /// Whether `self` and `other` are the same RGBA value, exactly.
    pub fn eq_color(&self, other: &Rgba) -> (r: bool)
        ensures
            r == self.equiv(*other),
    {
        proof {
            lemma_i64_prod_fits(self.red as int, other.den as int);
            lemma_i64_prod_fits(other.red as int, self.den as int);
            lemma_i64_prod_fits(self.green as int, other.den as int);
            lemma_i64_prod_fits(other.green as int, self.den as int);
            lemma_i64_prod_fits(self.blue as int, other.den as int);
            lemma_i64_prod_fits(other.blue as int, self.den as int);
            lemma_i64_prod_fits(self.alpha as int, other.den as int);
            lemma_i64_prod_fits(other.alpha as int, self.den as int);
        }
        let sd = self.den as i128;
        let od = other.den as i128;
        (self.red as i128) * od == (other.red as i128) * sd
            && (self.green as i128) * od == (other.green as i128) * sd
            && (self.blue as i128) * od == (other.blue as i128) * sd
            && (self.alpha as i128) * od == (other.alpha as i128) * sd
    }

    /// The exact linear interpolation from `self` (at a value of 0) to
    /// `other` (at a value of `VALUE_SCALE`), evaluated at `value`; the
    /// fraction is not clamped, so values outside the nominal range
    /// extrapolate. Componentwise on RGBA with no rounding: the result
    /// denominator absorbs the division.
    pub fn mix(&self, other: &Rgba, value: i64) -> (r: Rgba)
        requires
            self.narrow(),
            other.narrow(),
            -SCALAR_LIMIT <= value <= SCALAR_LIMIT,
        ensures
            r == spec_mix(*self, *other, value),
            r.wf(),
    {
        proof {
            lemma_mul_bound(self.den as int, other.den as int, DEN_LIMIT as int, DEN_LIMIT as int);
            assert((1048576int) * 1048576 == 0x100_0000_0000) by (nonlinear_arith);
            assert(1 <= self.den * other.den) by (nonlinear_arith)
                requires 1 <= self.den, 1 <= other.den;
        }
        let den_prod: i64 = self.den * other.den;
        Rgba {
            red: mix_channel_exec(self.red, self.den, other.red, other.den, value),
            green: mix_channel_exec(self.green, self.den, other.green, other.den, value),
            blue: mix_channel_exec(self.blue, self.den, other.blue, other.den, value),
            alpha: mix_channel_exec(self.alpha, self.den, other.alpha, other.den, value),
            den: den_prod * VALUE_SCALE,
        }
    }
}

/// One channel of the exact interpolation: the numerator over the common
/// denominator `min_den * max_den * VALUE_SCALE`.
pub open spec fn mix_channel(min_num: int, min_den: int, max_num: int, max_den: int, value: int) -> int {
    min_num * max_den * (VALUE_SCALE - value) + max_num * min_den * value
}

/// The exact linear interpolation from `min` (value 0) to `max`
/// (value `VALUE_SCALE`) at `value`, as one rational RGBA color.
pub open spec fn spec_mix(min: Rgba, max: Rgba, value: i64) -> Rgba {
    Rgba {
        red: mix_channel(min.red as int, min.den as int, max.red as int, max.den as int, value as int) as i64,
        green: mix_channel(min.green as int, min.den as int, max.green as int, max.den as int, value as int) as i64,
        blue: mix_channel(min.blue as int, min.den as int, max.blue as int, max.den as int, value as int) as i64,
        alpha: mix_channel(min.alpha as int, min.den as int, max.alpha as int, max.den as int, value as int) as i64,
        den: (min.den * max.den * VALUE_SCALE) as i64,
    }
}

/// One interpolated channel, exactly, with its overflow-freedom proof.
fn mix_channel_exec(a: i64, ad: i64, b: i64, bd: i64, v: i64) -> (r: i64)
    requires
        -CHANNEL_LIMIT <= a <= CHANNEL_LIMIT,
        1 <= ad <= DEN_LIMIT,
        -CHANNEL_LIMIT <= b <= CHANNEL_LIMIT,
        1 <= bd <= DEN_LIMIT,
        -SCALAR_LIMIT <= v <= SCALAR_LIMIT,
    ensures
        r as int == mix_channel(a as int, ad as int, b as int, bd as int, v as int),
        -CHANNEL_WIDE_LIMIT <= r <= CHANNEL_WIDE_LIMIT,
{
    proof {
        assert((1048576int) * 1048576 == 0x100_0000_0000) by (nonlinear_arith);
        assert((1048576int) * 1048576 * 2097152 == 0x2000_0000_0000_0000) by (nonlinear_arith);
        lemma_mul_bound(a as int, bd as int, CHANNEL_LIMIT as int, DEN_LIMIT as int);
        lemma_mul3_bound(a as int, bd as int, (VALUE_SCALE - v) as int, 1048576, 1048576, 2097152);
        lemma_mul_bound(b as int, ad as int, CHANNEL_LIMIT as int, DEN_LIMIT as int);
        lemma_mul3_bound(b as int, ad as int, v as int, 1048576, 1048576, 2097152);
    }
    ((a as i128) * (bd as i128) * ((VALUE_SCALE - v) as i128)
        + (b as i128) * (ad as i128) * (v as i128)) as i64
}

/// One interpolated channel of two narrow colors stays within the wide
/// channel bound.
proof fn lemma_channel_in_range(a: int, ad: int, b: int, bd: int, v: int)
    requires
        -CHANNEL_LIMIT <= a <= CHANNEL_LIMIT,
        1 <= ad <= DEN_LIMIT,
        -CHANNEL_LIMIT <= b <= CHANNEL_LIMIT,
        1 <= bd <= DEN_LIMIT,
        -SCALAR_LIMIT <= v <= SCALAR_LIMIT,
    ensures
        -CHANNEL_WIDE_LIMIT <= mix_channel(a, ad, b, bd, v) <= CHANNEL_WIDE_LIMIT,
{
    assert((1048576int) * 1048576 * 2097152 == 0x2000_0000_0000_0000) by (nonlinear_arith);
    lemma_mul3_bound(a, bd, VALUE_SCALE - v, 1048576, 1048576, 2097152);
    lemma_mul3_bound(b, ad, v, 1048576, 1048576, 2097152);
}

/// The interpolation of two narrow colors is stored without truncation:
/// the resulting color is well-formed and its fields are exactly the
/// channel numerators and the common denominator.
pub proof fn lemma_spec_mix_wf(min: Rgba, max: Rgba, value: i64)
    requires
        min.narrow(),
        max.narrow(),
        -SCALAR_LIMIT <= value <= SCALAR_LIMIT,
    ensures
        spec_mix(min, max, value).wf(),
        spec_mix(min, max, value).red as int
            == mix_channel(min.red as int, min.den as int, max.red as int, max.den as int, value as int),
        spec_mix(min, max, value).green as int
            == mix_channel(min.green as int, min.den as int, max.green as int, max.den as int, value as int),
        spec_mix(min, max, value).blue as int
            == mix_channel(min.blue as int, min.den as int, max.blue as int, max.den as int, value as int),
        spec_mix(min, max, value).alpha as int
            == mix_channel(min.alpha as int, min.den as int, max.alpha as int, max.den as int, value as int),
        spec_mix(min, max, value).den as int == min.den * max.den * VALUE_SCALE,
{
    lemma_channel_in_range(min.red as int, min.den as int, max.red as int, max.den as int, value as int);
    lemma_channel_in_range(min.green as int, min.den as int, max.green as int, max.den as int, value as int);
    lemma_channel_in_range(min.blue as int, min.den as int, max.blue as int, max.den as int, value as int);
    lemma_channel_in_range(min.alpha as int, min.den as int, max.alpha as int, max.den as int, value as int);
    lemma_mul3_bound(min.den as int, max.den as int, VALUE_SCALE as int, DEN_LIMIT as int, DEN_LIMIT as int, VALUE_SCALE as int);
    assert((1048576int) * 1048576 * 1000 <= DEN_WIDE_LIMIT) by (nonlinear_arith);
    assert(1 <= min.den * max.den * VALUE_SCALE) by (nonlinear_arith)
        requires 1 <= min.den, 1 <= max.den;
}

/// `|x * y| <= ax * ay` for factors bounded by `ax` and `ay`.
pub proof fn lemma_mul_bound(x: int, y: int, ax: int, ay: int)
    by (nonlinear_arith)
    requires
        -ax <= x <= ax,
        -ay <= y <= ay,
        0 <= ax,
        0 <= ay,
    ensures
        -(ax * ay) <= x * y <= ax * ay,
{
}

/// `|x * y * z| <= ax * ay * az` for factors bounded by `ax`, `ay`, `az`.
pub proof fn lemma_mul3_bound(x: int, y: int, z: int, ax: int, ay: int, az: int)
    by (nonlinear_arith)
    requires
        -ax <= x <= ax,
        -ay <= y <= ay,
        -az <= z <= az,
        0 <= ax,
        0 <= ay,
        0 <= az,
    ensures
        -(ax * ay * az) <= x * y * z <= ax * ay * az,
{
}

/// The product of any two `i64` values fits in `i128`.
proof fn lemma_i64_prod_fits(x: int, y: int)
    requires
        -0x8000_0000_0000_0000 <= x < 0x8000_0000_0000_0000,
        -0x8000_0000_0000_0000 <= y < 0x8000_0000_0000_0000,
    ensures
        -0x4000_0000_0000_0000_0000_0000_0000_0000 <= x * y
            <= 0x4000_0000_0000_0000_0000_0000_0000_0000,
{
    lemma_mul_bound(x, y, 0x8000_0000_0000_0000, 0x8000_0000_0000_0000);
    assert((0x8000_0000_0000_0000int) * 0x8000_0000_0000_0000
        == 0x4000_0000_0000_0000_0000_0000_0000_0000) by (nonlinear_arith);
}

} // verus!
