//! File sizes in the units that a reader expects.
//!
//! A size below one kilobyte is shown as a whole number of bytes. A larger one is shown in
//! its unit with one digit behind the point. The number is that of a double-precision
//! quotient: the size is first taken to the nearest double (which only matters from
//! 2^53 bytes on), the division by powers of two is exact, and the tenth is chosen by
//! rounding half to even.

use crate::text::{append_decimal, decimal};
use vstd::arithmetic::power2::pow2;
use vstd::prelude::*;

verus! {

/// From here on a whole number may lie between two doubles.
pub const DOUBLE_LIMIT: u64 = 0x20_0000_0000_0000;

/// The whole number nearest to `num / den`, the even one of two that are equally near.
pub open spec fn half_even(num: nat, den: nat) -> nat
    recommends
        den > 0,
{
    let quotient = num / den;
    let rest = num % den;
    if 2 * rest < den {
        quotient
    } else if 2 * rest > den {
        quotient + 1
    } else {
        quotient + quotient % 2
    }
}

/// The distance between the doubles around `n`, or one where they lie closer.
pub open spec fn double_spacing(n: nat) -> nat
    decreases n,
{
    if n < DOUBLE_LIMIT {
        1
    } else {
        2 * double_spacing(n / 2)
    }
}

/// The double nearest to `n`.
pub open spec fn nearest_double(n: nat) -> nat {
    if n < DOUBLE_LIMIT {
        n
    } else {
        half_even(n, double_spacing(n)) * double_spacing(n)
    }
}

/// How many times the unit of a size is 1024 times a smaller one.
pub open spec fn unit_power(bytes: nat) -> nat {
    if bytes < 1024 {
        0
    } else if bytes < 1024 * 1024 {
        1
    } else if bytes < 1024 * 1024 * 1024 {
        2
    } else if bytes < 1024 * 1024 * 1024 * 1024 {
        3
    } else {
        4
    }
}

/// The number of bytes in a unit.
pub open spec fn unit_bytes(power: nat) -> nat {
    if power == 0 {
        1
    } else if power == 1 {
        1024
    } else if power == 2 {
        1024 * 1024
    } else if power == 3 {
        1024 * 1024 * 1024
    } else {
        1024 * 1024 * 1024 * 1024
    }
}

/// The name of a unit.
pub open spec fn unit_name(power: nat) -> Seq<char> {
    if power == 0 {
        "B"@
    } else if power == 1 {
        "KB"@
    } else if power == 2 {
        "MB"@
    } else if power == 3 {
        "GB"@
    } else {
        "TB"@
    }
}

/// The size in tenths of its unit.
pub open spec fn size_tenths(bytes: nat) -> nat {
    half_even(10 * nearest_double(bytes), unit_bytes(unit_power(bytes)))
}

/// The text for a size.
pub open spec fn size_text(bytes: nat) -> Seq<char> {
    if bytes < 1024 {
        decimal(bytes) + " "@ + unit_name(0)
    } else {
        decimal(size_tenths(bytes) / 10) + "."@ + decimal(size_tenths(bytes) % 10) + " "@
            + unit_name(unit_power(bytes))
    }
}

fn rounded_quotient(num: u128, den: u128) -> (q: u128)
    requires
        0 < den <= 0x1_0000_0000_0000_0000,
        num < 0x1_0000_0000_0000_0000_0000,
    ensures
        q == half_even(num as nat, den as nat),
        den == 1 ==> q == num,
        q <= num / den + 1,
        q <= num + 1,
{
    let quotient = num / den;
    let rest = num % den;
    proof {
        vstd::arithmetic::div_mod::lemma_div_is_ordered_by_denominator(num as int, 1, den as int);
        vstd::arithmetic::div_mod::lemma_mod_bound(num as int, den as int);
        vstd::arithmetic::div_mod::lemma_div_basics_2(num as int);
    }
    assert(quotient <= num);
    if 2 * rest < den {
        quotient
    } else if 2 * rest > den {
        quotient + 1
    } else {
        quotient + quotient % 2
    }
}

/// Finds the spacing of doubles around `n`.
fn spacing(n: u64) -> (unit: u64)
    ensures
        unit == double_spacing(n as nat),
        1 <= unit <= 0x1000,
        n < DOUBLE_LIMIT ==> unit == 1,
{
    let mut unit: u64 = 1;
    let mut rest: u64 = n;
    while rest >= DOUBLE_LIMIT
        invariant
            double_spacing(n as nat) == unit * double_spacing(rest as nat),
            1 <= unit,
            unit * rest <= u64::MAX,
            unit <= 0x1000,
            n < DOUBLE_LIMIT ==> unit == 1 && rest == n,
        decreases rest,
    {
        proof {
            assert(unit <= 0x7ff) by (nonlinear_arith)
                requires
                    unit * rest <= u64::MAX,
                    rest >= 0x20_0000_0000_0000,
            ;
            let half = (rest / 2) as int;
            assert((2 * unit) * half <= unit * rest) by (nonlinear_arith)
                requires
                    2 * half <= rest,
                    unit >= 1,
            ;
            assert(unit * (2 * double_spacing((rest / 2) as nat)) == (2 * unit) * double_spacing(
                (rest / 2) as nat,
            )) by (nonlinear_arith);
        }
        rest = rest / 2;
        unit = 2 * unit;
    }
    proof {
        let last = double_spacing(rest as nat);
        assert(unit * last == unit) by (nonlinear_arith)
            requires
                last == 1,
        ;
    }
    unit
}

/// The text for a file size.
pub fn format_size(bytes: u64) -> (text: String)
    ensures
        text@ == size_text(bytes as nat),
{
    let mut text = String::new();
    if bytes < 1024 {
        append_decimal(&mut text, bytes);
        text.append(" ");
        text.append("B");
        assert(text@ =~= size_text(bytes as nat));
        return text;
    }
    let unit = spacing(bytes);
    let count = rounded_quotient(bytes as u128, unit as u128);
    proof {
        vstd::arithmetic::mul::lemma_mul_upper_bound(
            count as int,
            0x1_0000_0000_0000_0000,
            unit as int,
            0x1000,
        );
    }
    let double = count * (unit as u128);
    proof {
        if bytes < DOUBLE_LIMIT {
            assert(double == bytes) by (nonlinear_arith)
                requires
                    count == bytes,
                    unit == 1,
                    double == count * unit,
            ;
        }
    }
    let (scale, name) = if bytes < 1024 * 1024 {
        (1024u128, "KB")
    } else if bytes < 1024 * 1024 * 1024 {
        (1024u128 * 1024, "MB")
    } else if bytes < 1024 * 1024 * 1024 * 1024 {
        (1024u128 * 1024 * 1024, "GB")
    } else {
        (1024u128 * 1024 * 1024 * 1024, "TB")
    };
    let tenths = rounded_quotient(10 * double, scale);
    assert(tenths == size_tenths(bytes as nat));
    assert(tenths <= u64::MAX);
    let tenths = tenths as u64;
    append_decimal(&mut text, tenths / 10);
    text.append(".");
    append_decimal(&mut text, tenths % 10);
    text.append(" ");
    text.append(name);
    assert(text@ =~= size_text(bytes as nat));
    text
}

/// Below 1024 terabytes the number shown lies between 1.0 and 1024.0, and a size
/// below one kilobyte is shown exactly.
pub proof fn shown_number_fits_its_unit(bytes: nat)
    ensures
        bytes < 1024 ==> size_text(bytes) == decimal(bytes) + " "@ + "B"@,
        1024 <= bytes < 1024 * 1024 * 1024 * 1024 * 1024 ==> 10 <= size_tenths(bytes) <= 10240,
{
    if 1024 <= bytes < 1024 * 1024 * 1024 * 1024 * 1024 {
        let unit = unit_bytes(unit_power(bytes));
        let quotient = (10 * bytes) / unit;
        assert(10 <= quotient <= 10239) by (nonlinear_arith)
            requires
                unit <= bytes < 1024 * unit,
                quotient == (10 * bytes) / unit,
        ;
    }
}

/// A larger file is never shown in a smaller unit.
pub proof fn units_grow_with_sizes(small: nat, large: nat)
    requires
        small <= large,
    ensures
        unit_power(small) <= unit_power(large),
        unit_bytes(unit_power(small)) <= unit_bytes(unit_power(large)),
{
}

/// Whether `q` is the whole number nearest to `num / den`, and the even one of two that are
/// equally near.
pub open spec fn is_nearest(q: int, num: int, den: int) -> bool {
    &&& 2 * (q * den - num) <= den
    &&& 2 * (num - q * den) <= den
    &&& 2 * (q * den - num) == den || 2 * (num - q * den) == den ==> q % 2 == 0
}

/// Whether `d` is the double nearest to `n`: a multiple of a power of two such that 53 bits
/// hold what it is multiplied with.
pub open spec fn is_double_of(d: int, n: int) -> bool {
    if n < 0x20_0000_0000_0000 {
        d == n
    } else {
        exists|power: nat, q: int|
            {
                &&& 0x10_0000_0000_0000 * #[trigger] pow2(power) <= n
                &&& n < 0x20_0000_0000_0000 * pow2(power)
                &&& #[trigger] is_nearest(q, n, pow2(power) as int)
                &&& d == q * pow2(power)
            }
    }
}

/// Rounding gives the nearest whole number, the even one of two.
pub proof fn rounding_is_to_the_nearest(num: nat, den: nat)
    requires
        den > 0,
    ensures
        is_nearest(half_even(num, den) as int, num as int, den as int),
{
    let quotient = num / den;
    let rest = num % den;
    vstd::arithmetic::div_mod::lemma_fundamental_div_mod(num as int, den as int);
    vstd::arithmetic::div_mod::lemma_mod_bound(num as int, den as int);
    assert(quotient * den == den * quotient) by (nonlinear_arith);
    assert((quotient + 1) * den == quotient * den + den) by (nonlinear_arith);
}

proof fn lemma_spacing(n: nat) -> (power: nat)
    requires
        n >= 0x10_0000_0000_0000,
    ensures
        double_spacing(n) == pow2(power),
        0x10_0000_0000_0000 * pow2(power) <= n < 0x20_0000_0000_0000 * pow2(power),
    decreases n,
{
    vstd::arithmetic::power2::lemma2_to64();
    if n < DOUBLE_LIMIT {
        0
    } else {
        let below = lemma_spacing(n / 2);
        vstd::arithmetic::power2::lemma_pow2_adds(below, 1);
        below + 1
    }
}

/// A size is taken to the nearest double.
pub proof fn size_is_taken_as_a_double(n: nat)
    ensures
        is_double_of(nearest_double(n) as int, n as int),
{
    if n >= DOUBLE_LIMIT {
        let power = lemma_spacing(n);
        let unit = double_spacing(n);
        vstd::arithmetic::power2::lemma_pow2_pos(power);
        rounding_is_to_the_nearest(n, unit);
        assert(is_nearest(half_even(n, unit) as int, n as int, pow2(power) as int));
    }
}

/// A size below one kilobyte is shown as its number of bytes.
pub proof fn small_size_is_exact(bytes: u64, text: String)
    requires
        call_ensures(format_size, (bytes,), text),
        bytes < 1024,
    ensures
        text@ == decimal(bytes as nat) + " "@ + "B"@,
{
}

/// A larger size is shown in kilobytes, megabytes, gigabytes or terabytes, whichever is the
/// largest that it reaches, with one digit behind the point, which is that of the nearest
/// tenth.
pub proof fn large_size_is_shown_in_its_unit(
    bytes: u64,
    unit: nat,
    name: Seq<char>,
    text: String,
) -> (tenths: nat)
    requires
        call_ensures(format_size, (bytes,), text),
        ({
            ||| 1024 <= bytes < 0x10_0000 && unit == 1024 && name == "KB"@
            ||| 0x10_0000 <= bytes < 0x4000_0000 && unit == 0x10_0000 && name == "MB"@
            ||| 0x4000_0000 <= bytes < 0x100_0000_0000 && unit == 0x4000_0000 && name == "GB"@
            ||| 0x100_0000_0000 <= bytes && unit == 0x100_0000_0000 && name == "TB"@
        }),
    ensures
        text@ == decimal(tenths / 10) + "."@ + decimal(tenths % 10) + " "@ + name,
        exists|double: int| #[trigger]
            is_double_of(double, bytes as int) && is_nearest(
                tenths as int,
                10 * double,
                unit as int,
            ),
        bytes < 0x20_0000_0000_0000 ==> is_nearest(tenths as int, 10 * bytes, unit as int),
{
    let double = nearest_double(bytes as nat);
    size_is_taken_as_a_double(bytes as nat);
    rounding_is_to_the_nearest(10 * double, unit);
    assert(is_double_of(double as int, bytes as int));
    size_tenths(bytes as nat)
}

/// Of two sizes that are shown in the same unit the larger one is not shown as less.
pub proof fn shown_numbers_grow_with_sizes(small: nat, large: nat)
    requires
        1024 <= small <= large < 0x20_0000_0000_0000,
        unit_power(small) == unit_power(large),
    ensures
        size_tenths(small) <= size_tenths(large),
{
    let unit = unit_bytes(unit_power(small));
    rounding_is_to_the_nearest(10 * small, unit);
    rounding_is_to_the_nearest(10 * large, unit);
    let (a, b) = (size_tenths(small) as int, size_tenths(large) as int);
    if a > b {
        assert(a * unit >= b * unit + unit) by (nonlinear_arith)
            requires
                a >= b + 1,
                unit >= 1,
        ;
        assert(10 * small == 10 * large);
    }
}

} // verus!
