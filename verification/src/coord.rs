//! Screen coordinates.
//!
//! The toolkit measures in single-precision numbers. A [`Coord`] carries one by its IEEE 754
//! bit pattern, which is enough to store it, to hand it back and to compare it.

use vstd::arithmetic::power2::{lemma_pow2_adds, lemma_pow2_pos, lemma_pow2_strictly_increases, pow2};
use vstd::prelude::*;

verus! {

/// The bit pattern of a single-precision number.
#[derive(Clone, Copy, Debug, PartialEq, Eq, Structural)]
pub struct Coord {
    pub bits: u32,
}

/// A point on the screen.
#[derive(Clone, Copy, Debug, PartialEq, Eq, Structural)]
pub struct Point {
    pub x: Coord,
    pub y: Coord,
}

/// A rectangle by its upper left corner and its extent.
#[derive(Clone, Copy, Debug, PartialEq, Eq, Structural)]
pub struct Rectangle {
    pub x: Coord,
    pub y: Coord,
    pub width: Coord,
    pub height: Coord,
}

/// What a scrolled widget shows: where it stands, and how far its content is scrolled.
#[derive(Clone, Copy, Debug, PartialEq, Eq, Structural)]
pub struct Viewport {
    pub bounds: Rectangle,
    pub offset: Point,
}

/// The sign bit.
pub const SIGN: u32 = 0x8000_0000;

/// The pattern of positive infinity. A larger magnitude is no number.
pub const INFINITY: u32 = 0x7f80_0000;

/// One step of the exponent field.
pub const EXPONENT: u32 = 0x0080_0000;

/// The magnitude that a pattern without sign stands for, in units of the smallest positive
/// single-precision number. Infinity counts as the power of two that follows the largest
/// finite magnitudes.
pub open spec fn magnitude(unsigned: nat) -> nat {
    let exponent = unsigned / EXPONENT as nat;
    let fraction = unsigned % EXPONENT as nat;
    if exponent == 0 {
        fraction
    } else {
        (EXPONENT + fraction) as nat * pow2((exponent - 1) as nat)
    }
}

impl Coord {
    /// The coordinate zero.
    pub fn zero() -> (zero: Self)
        ensures
            zero == (Coord { bits: 0 }),
    {
        Coord { bits: 0 }
    }

    /// The pattern without its sign.
    pub open spec fn unsigned(self) -> nat {
        (self.bits % SIGN) as nat
    }

    /// Whether the pattern stands for a number.
    pub open spec fn is_number(self) -> bool {
        self.unsigned() <= INFINITY
    }

    /// The number, in units of the smallest positive single-precision number.
    pub open spec fn value(self) -> int {
        if self.bits < SIGN {
            magnitude(self.unsigned()) as int
        } else {
            -(magnitude(self.unsigned()) as int)
        }
    }

    /// Whether both are numbers and `self` is the smaller one.
    pub open spec fn below(self, other: Self) -> bool {
        &&& self.is_number()
        &&& other.is_number()
        &&& self.value() < other.value()
    }

    /// The larger one of the number and zero, and zero for what is no number.
    pub open spec fn or_zero(self) -> Self {
        if Coord::below(Coord { bits: 0 }, self) {
            self
        } else {
            Coord { bits: 0 }
        }
    }

    /// Compares two coordinates.
    pub fn less_than(self, other: Self) -> (less: bool)
        ensures
            less == self.below(other),
    {
        let own = self.bits % SIGN;
        let others = other.bits % SIGN;
        proof {
            lemma_magnitude_orders(own as nat, others as nat);
            lemma_magnitude_orders(others as nat, own as nat);
            lemma_magnitude_orders(0, own as nat);
            lemma_magnitude_orders(0, others as nat);
        }
        if own > INFINITY || others > INFINITY {
            return false;
        }
        if self.bits < SIGN {
            other.bits < SIGN && own < others
        } else if other.bits < SIGN {
            own > 0 || others > 0
        } else {
            own > others
        }
    }

    /// Raises a coordinate to zero.
    pub fn at_least_zero(self) -> (raised: Self)
        ensures
            raised == self.or_zero(),
    {
        if Coord::zero().less_than(self) {
            self
        } else {
            Coord::zero()
        }
    }
}

impl Point {
    /// The origin.
    pub fn origin() -> (origin: Self)
        ensures
            origin == Point::at_origin(),
    {
        Point { x: Coord::zero(), y: Coord::zero() }
    }

    /// The point both of whose coordinates are zero.
    pub open spec fn at_origin() -> Self {
        Point { x: Coord { bits: 0 }, y: Coord { bits: 0 } }
    }
}

/// Magnitudes grow with their patterns.
proof fn lemma_magnitude_orders(a: nat, b: nat)
    ensures
        a < b ==> magnitude(a) < magnitude(b),
        magnitude(0) == 0,
{
    if a < b {
        let step = EXPONENT as nat;
        let (ea, fa) = (a / step, a % step);
        let (eb, fb) = (b / step, b % step);
        assert(a == step * ea + fa);
        assert(b == step * eb + fb);
        assert(ea <= eb);
        if ea == eb {
            assert(fa < fb);
            if ea > 0 {
                let scale = pow2((ea - 1) as nat);
                lemma_pow2_pos((ea - 1) as nat);
                assert((step + fa) * scale < (step + fb) * scale) by (nonlinear_arith)
                    requires
                        fa < fb,
                        scale > 0,
                ;
            }
        } else {
            let high = pow2((eb - 1) as nat);
            lemma_pow2_pos((eb - 1) as nat);
            assert((step + fb) * high >= step * high) by (nonlinear_arith);
            if ea == 0 {
                assert(step * high >= step) by (nonlinear_arith)
                    requires
                        high >= 1,
                ;
            } else {
                let low = pow2((ea - 1) as nat);
                lemma_pow2_pos((ea - 1) as nat);
                lemma_pow2_adds((ea - 1) as nat, 1);
                vstd::arithmetic::power2::lemma2_to64();
                if ea + 1 < eb {
                    lemma_pow2_strictly_increases(ea, (eb - 1) as nat);
                }
                assert(high >= 2 * low);
                assert((step + fa) * low < step * high) by (nonlinear_arith)
                    requires
                        fa < step,
                        high >= 2 * low,
                        low > 0,
                ;
            }
        }
    }
}

/// No coordinate is below itself, and of two coordinates at most one is below the other.
pub proof fn comparison_is_strict(a: Coord, b: Coord)
    ensures
        !a.below(a),
        a.below(b) ==> !b.below(a),
{
}

/// A raised coordinate is never below zero.
pub proof fn raised_is_not_negative(c: Coord)
    ensures
        c.or_zero().is_number(),
        !c.or_zero().below(Coord { bits: 0 }),
{
}

/// A pattern that stands for no number is neither below nor above any other.
pub proof fn no_number_is_incomparable(a: Coord, b: Coord, less: bool, more: bool)
    requires
        call_ensures(Coord::less_than, (a, b), less),
        call_ensures(Coord::less_than, (b, a), more),
        a.bits % 0x8000_0000 > 0x7f80_0000,
    ensures
        !less && !more,
{
}

/// Numbers without a sign are ordered as their patterns are. Those with one are ordered the
/// other way round, and stand below those without, except that the two zeros are equal.
pub proof fn numbers_are_ordered_by_sign_and_pattern(a: Coord, b: Coord, less: bool)
    requires
        call_ensures(Coord::less_than, (a, b), less),
        a.bits % 0x8000_0000 <= 0x7f80_0000,
        b.bits % 0x8000_0000 <= 0x7f80_0000,
    ensures
        less == a.below(b),
        a.bits < 0x8000_0000 && b.bits < 0x8000_0000 ==> less == (a.bits < b.bits),
        a.bits >= 0x8000_0000 && b.bits >= 0x8000_0000 ==> less == (a.bits > b.bits),
        a.bits < 0x8000_0000 && b.bits >= 0x8000_0000 ==> !less,
        a.bits >= 0x8000_0000 && b.bits < 0x8000_0000 ==> less == !(a.bits == 0x8000_0000
            && b.bits == 0),
{
    let own = (a.bits % SIGN) as nat;
    let others = (b.bits % SIGN) as nat;
    lemma_magnitude_orders(own, others);
    lemma_magnitude_orders(others, own);
    lemma_magnitude_orders(0, own);
    lemma_magnitude_orders(0, others);
}

/// Of two numbers either one is below the other or they have the same value, and what is below
/// a number that is below a third is below the third.
pub proof fn numbers_are_ordered(a: Coord, b: Coord, c: Coord)
    requires
        a.is_number(),
        b.is_number(),
        c.is_number(),
    ensures
        a.below(b) || b.below(a) || a.value() == b.value(),
        a.below(b) && b.below(c) ==> a.below(c),
{
}

/// The smallest numbers count up one by one, from there on one step of the exponent doubles
/// a number, and the sign makes it negative.
pub proof fn patterns_stand_for_their_numbers(c: Coord)
    ensures
        c.bits < 0x0080_0000 ==> c.value() == c.bits,
        0x0080_0000 <= c.bits < 0x7f80_0000 ==> (Coord {
            bits: (c.bits + 0x0080_0000) as u32,
        }).value() == 2 * c.value(),
        0x0080_0000 <= c.bits < 0x0100_0000 ==> c.value() == c.bits,
        c.bits < 0x8000_0000 ==> (Coord { bits: (c.bits + 0x8000_0000) as u32 }).value()
            == -c.value(),
{
    vstd::arithmetic::power2::lemma2_to64();
    let unsigned = (c.bits % SIGN) as nat;
    let exponent = unsigned / EXPONENT as nat;
    let fraction = unsigned % EXPONENT as nat;
    if 0x0080_0000 <= c.bits < 0x7f80_0000 {
        let next = Coord { bits: (c.bits + 0x0080_0000) as u32 };
        assert(next.unsigned() / EXPONENT as nat == exponent + 1);
        assert(next.unsigned() % EXPONENT as nat == fraction);
        lemma_pow2_adds((exponent - 1) as nat, 1);
        let scale = pow2((exponent - 1) as nat);
        let base = (EXPONENT + fraction) as nat;
        assert(base * (scale * 2) == 2 * (base * scale)) by (nonlinear_arith);
        if c.bits < 0x0100_0000 {
            assert(exponent == 1);
            assert(base * scale == base) by (nonlinear_arith)
                requires
                    scale == 1,
            ;
        }
    }
}

/// A coordinate above zero stays; every other one, and what is no number, becomes zero.
pub proof fn raising_keeps_what_is_positive(c: Coord, raised: Coord)
    requires
        call_ensures(Coord::at_least_zero, (c,), raised),
    ensures
        0 < c.bits <= 0x7f80_0000 ==> raised == c,
        c.bits == 0 || c.bits > 0x7f80_0000 ==> raised.bits == 0,
        raised == c.or_zero(),
{
    lemma_magnitude_orders(0, (c.bits % SIGN) as nat);
}

/// At the origin both coordinates are zero.
pub proof fn origin_is_at_zero(origin: Point)
    requires
        call_ensures(Point::origin, (), origin),
    ensures
        origin.x.bits == 0,
        origin.y.bits == 0,
        origin == Point::at_origin(),
{
}

/// What [`raising_keeps_what_is_positive`] says, of the raised coordinate as such.
pub proof fn numbers_above_zero(c: Coord)
    ensures
        0 < c.bits <= 0x7f80_0000 ==> c.or_zero() == c,
        c.bits == 0 || c.bits > 0x7f80_0000 ==> c.or_zero().bits == 0,
{
    lemma_magnitude_orders(0, (c.bits % SIGN) as nat);
}

} // verus!
