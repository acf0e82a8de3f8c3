//! The display-relative percentage space and the lossless bridge
//! between it and absolute pixel space. A percentage coordinate is an
//! exact fraction of a display's extent, so a rectangle mapped out of
//! a display and back comes back bit-for-bit identical; mapping onto a
//! display of another size rounds each component once, half away from
//! zero. Components may fall outside the unit range when a window
//! overflows its display; they are passed through unclamped, since
//! clamping would lose the information the inverse mapping needs.
use vstd::prelude::*;

use crate::geometry::{ARITH_LIMIT, COORD_LIMIT, ScreenPoint, ScreenRect, ScreenSize};

verus! {

/// Bound on the magnitude of a fraction's numerator.
pub const NUM_LIMIT: i64 = 0x4000_0000;

/// An exact ratio of two integers, the unit of the percentage space.
/// The denominator is the extent of the display the fraction is
/// relative to, so no precision is lost when a pixel coordinate is
/// divided by a display size.
#[derive(Clone, Copy, PartialEq, Eq, Structural, Debug)]
pub struct Fraction {
    pub num: i64,
    pub den: i64,
}

/// A point in percentage-of-display space.
#[derive(Clone, Copy, PartialEq, Eq, Structural, Debug)]
pub struct PercentPoint {
    pub x: Fraction,
    pub y: Fraction,
}

/// An extent in percentage-of-display space.
#[derive(Clone, Copy, PartialEq, Eq, Structural, Debug)]
pub struct PercentSize {
    pub width: Fraction,
    pub height: Fraction,
}

/// A rectangle in percentage-of-display space: (0,0)-(1,1) spans one
/// display's usable area.
#[derive(Clone, Copy, PartialEq, Eq, Structural, Debug)]
pub struct PercentRect {
    pub origin: PercentPoint,
    pub size: PercentSize,
}

/// `num / den` rounded to the nearest integer, with halves rounded
/// away from zero. Requires `den > 0`.
pub open spec fn round_half_away(num: int, den: int) -> int {
    if num >= 0 {
        (2 * num + den) / (2 * den)
    } else {
        -((2 * -num + den) / (2 * den))
    }
}

impl Fraction {
    /// The denominator is a positive display extent and the numerator
    /// a bounded pixel distance.
    pub open spec fn wf(self) -> bool {
        &&& 1 <= self.den <= 2 * COORD_LIMIT
        &&& -NUM_LIMIT <= self.num <= NUM_LIMIT
    }

    /// Whether the two fractions denote the same rational, by cross
    /// multiplication.
    pub open spec fn same_value_spec(self, other: Fraction) -> bool {
        self.num * other.den == other.num * self.den
    }

    pub fn new(num: i64, den: i64) -> (r: Fraction)
        requires
            1 <= den <= 2 * COORD_LIMIT,
            -NUM_LIMIT <= num <= NUM_LIMIT,
        ensures
            r.num == num,
            r.den == den,
            r.wf(),
    {
        Fraction { num, den }
    }

    /// Whether the two fractions denote the same rational number, so
    /// that 960/1920 equals 1/2.
    pub fn same_value(&self, other: &Fraction) -> (r: bool)
        requires
            self.wf(),
            other.wf(),
        ensures
            r == self.same_value_spec(*other),
    {
        proof {
            lemma_fraction_products_bounded(*self, *other);
        }
        self.num * other.den == other.num * self.den
    }

    /// `self` scaled by `length` and rounded once, half away from
    /// zero: the pixel distance this fraction denotes on a display of
    /// the given extent.
    pub fn scale_round(&self, length: i64) -> (r: i64)
        requires
            self.wf(),
            0 <= length <= 2 * COORD_LIMIT,
        ensures
            r == round_half_away(self.num * length, self.den as int),
            -5 * NUM_LIMIT * COORD_LIMIT <= r <= 5 * NUM_LIMIT * COORD_LIMIT,
    {
        let negative = self.num < 0;
        let magnitude: i64 = if negative {
            -self.num
        } else {
            self.num
        };
        assert(0 <= magnitude * length <= 2 * NUM_LIMIT * COORD_LIMIT) by (nonlinear_arith)
            requires
                0 <= magnitude <= NUM_LIMIT,
                0 <= length <= 2 * COORD_LIMIT,
        ;
        let product: i64 = magnitude * length;
        let quotient: i64 = (2 * product + self.den) / (2 * self.den);
        proof {
            vstd::arithmetic::div_mod::lemma_div_nonincreasing(
                2 * product + self.den,
                2 * self.den,
            );
            vstd::arithmetic::div_mod::lemma_div_pos_is_pos(
                2 * product + self.den,
                2 * self.den,
            );
            if negative {
                assert(self.num * length == -(magnitude * length)) by (nonlinear_arith)
                    requires
                        magnitude == -self.num,
                ;
            }
            if product == 0 {
                vstd::arithmetic::div_mod::lemma_basic_div(
                    self.den as int,
                    2 * self.den as int,
                );
            }
        }
        if negative {
            -quotient
        } else {
            quotient
        }
    }
}

impl PercentRect {
    pub open spec fn wf(self) -> bool {
        &&& self.origin.x.wf()
        &&& self.origin.y.wf()
        &&& self.size.width.wf()
        &&& self.size.height.wf()
    }
}

/// The percentage rectangle that `rect` occupies within `display`:
/// `(rect.origin - display.origin) / display.size` componentwise, and
/// `rect.size / display.size`, all as exact fractions.
pub open spec fn to_percent_spec(rect: ScreenRect, display: ScreenRect) -> PercentRect {
    PercentRect {
        origin: PercentPoint {
            x: Fraction {
                num: (rect.origin.x - display.origin.x) as i64,
                den: display.size.width,
            },
            y: Fraction {
                num: (rect.origin.y - display.origin.y) as i64,
                den: display.size.height,
            },
        },
        size: PercentSize {
            width: Fraction { num: rect.size.width, den: display.size.width },
            height: Fraction { num: rect.size.height, den: display.size.height },
        },
    }
}

/// The absolute rectangle that `pct` denotes on `display`:
/// `display.origin + pct.origin * display.size` and
/// `pct.size * display.size`, each component rounded once, half away
/// from zero.
pub open spec fn to_absolute_spec(pct: PercentRect, display: ScreenRect) -> ScreenRect {
    ScreenRect {
        origin: ScreenPoint {
            x: (display.origin.x + round_half_away(
                pct.origin.x.num * display.size.width,
                pct.origin.x.den as int,
            )) as i64,
            y: (display.origin.y + round_half_away(
                pct.origin.y.num * display.size.height,
                pct.origin.y.den as int,
            )) as i64,
        },
        size: ScreenSize {
            width: round_half_away(
                pct.size.width.num * display.size.width,
                pct.size.width.den as int,
            ) as i64,
            height: round_half_away(
                pct.size.height.num * display.size.height,
                pct.size.height.den as int,
            ) as i64,
        },
    }
}

/// Bounds loose enough to admit a decorated window frame that
/// overflows its display, yet tight enough that every numerator a
/// conversion produces stays within `NUM_LIMIT`.
pub open spec fn rect_in_percent_range(rect: ScreenRect) -> bool {
    &&& -8 * COORD_LIMIT <= rect.origin.x <= 8 * COORD_LIMIT
    &&& -8 * COORD_LIMIT <= rect.origin.y <= 8 * COORD_LIMIT
    &&& -8 * COORD_LIMIT <= rect.size.width <= 8 * COORD_LIMIT
    &&& -8 * COORD_LIMIT <= rect.size.height <= 8 * COORD_LIMIT
}

/// Converts an absolute rectangle to the percentage of `display` it
/// covers. Lossless: the result holds exact fractions, so mapping back
/// onto the same display restores `rect` exactly (see
/// `lemma_percent_round_trip`).
pub fn to_percent(rect: &ScreenRect, display: &ScreenRect) -> (r: PercentRect)
    requires
        rect_in_percent_range(*rect),
        display.wf(),
        1 <= display.size.width,
        1 <= display.size.height,
    ensures
        r == to_percent_spec(*rect, *display),
        r.wf(),
{
    PercentRect {
        origin: PercentPoint {
            x: Fraction {
                num: rect.origin.x - display.origin.x,
                den: display.size.width,
            },
            y: Fraction {
                num: rect.origin.y - display.origin.y,
                den: display.size.height,
            },
        },
        size: PercentSize {
            width: Fraction { num: rect.size.width, den: display.size.width },
            height: Fraction { num: rect.size.height, den: display.size.height },
        },
    }
}

/// Maps a percentage rectangle onto `display`, rounding each component
/// once, half away from zero. The exact inverse of `to_percent` on the
/// display the percentages were taken from.
pub fn to_absolute(pct: &PercentRect, display: &ScreenRect) -> (r: ScreenRect)
    requires
        pct.wf(),
        display.wf(),
    ensures
        r == to_absolute_spec(*pct, *display),
        r.bounded(ARITH_LIMIT as int),
{
    let x = display.origin.x + pct.origin.x.scale_round(display.size.width);
    let y = display.origin.y + pct.origin.y.scale_round(display.size.height);
    let width = pct.size.width.scale_round(display.size.width);
    let height = pct.size.height.scale_round(display.size.height);
    ScreenRect {
        origin: ScreenPoint { x, y },
        size: ScreenSize { width, height },
    }
}

/// Scaling a fraction by its own denominator rounds to exactly the
/// numerator: `round_half_away(k * b, b) == k`.
proof fn lemma_round_exact(k: int, b: int)
    requires
        1 <= b,
    ensures
        round_half_away(k * b, b) == k,
{
    if k >= 0 {
        assert(k * b >= 0) by (nonlinear_arith)
            requires
                k >= 0,
                b >= 1,
        ;
        assert(2 * (k * b) + b == k * (2 * b) + b) by (nonlinear_arith);
        vstd::arithmetic::div_mod::lemma_fundamental_div_mod_converse(
            2 * (k * b) + b,
            2 * b,
            k,
            b,
        );
    } else {
        let m = -k;
        assert(k * b < 0) by (nonlinear_arith)
            requires
                k < 0,
                b >= 1,
        ;
        assert(-(k * b) == m * b) by (nonlinear_arith)
            requires
                m == -k,
        ;
        assert(2 * (m * b) + b == m * (2 * b) + b) by (nonlinear_arith);
        vstd::arithmetic::div_mod::lemma_fundamental_div_mod_converse(
            2 * (m * b) + b,
            2 * b,
            m,
            b,
        );
    }
}

/// Round-trip law: converting a rectangle to the percentage of a
/// display it covers and mapping that percentage back onto the same
/// display restores the rectangle exactly, with no rounding loss.
pub proof fn lemma_percent_round_trip(rect: ScreenRect, display: ScreenRect)
    requires
        rect_in_percent_range(rect),
        display.wf(),
        1 <= display.size.width,
        1 <= display.size.height,
    ensures
        to_absolute_spec(to_percent_spec(rect, display), display) == rect,
{
    lemma_round_exact(rect.origin.x - display.origin.x, display.size.width as int);
    lemma_round_exact(rect.origin.y - display.origin.y, display.size.height as int);
    lemma_round_exact(rect.size.width as int, display.size.width as int);
    lemma_round_exact(rect.size.height as int, display.size.height as int);
}

/// Products taken while cross-multiplying two well-formed fractions
/// stay within `i64`.
proof fn lemma_fraction_products_bounded(a: Fraction, b: Fraction)
    requires
        a.wf(),
        b.wf(),
    ensures
        -2 * NUM_LIMIT * COORD_LIMIT <= a.num * b.den <= 2 * NUM_LIMIT * COORD_LIMIT,
        -2 * NUM_LIMIT * COORD_LIMIT <= b.num * a.den <= 2 * NUM_LIMIT * COORD_LIMIT,
{
    assert(-2 * NUM_LIMIT * COORD_LIMIT <= a.num * b.den <= 2 * NUM_LIMIT * COORD_LIMIT)
        by (nonlinear_arith)
        requires
            -NUM_LIMIT <= a.num <= NUM_LIMIT,
            1 <= b.den <= 2 * COORD_LIMIT,
    ;
    assert(-2 * NUM_LIMIT * COORD_LIMIT <= b.num * a.den <= 2 * NUM_LIMIT * COORD_LIMIT)
        by (nonlinear_arith)
        requires
            -NUM_LIMIT <= b.num <= NUM_LIMIT,
            1 <= a.den <= 2 * COORD_LIMIT,
    ;
}

} // verus!
