//! Rounding to single precision, on integers.
//!
//! The renderer works in single-precision numbers, which hold 24 significant bits. A whole number
//! of units that needs more is rounded to the nearest one that does not, a tie going to the even
//! neighbour. On anything that a screen measures nothing is rounded at all.

use vstd::prelude::*;

verus! {

/// The first whole number that takes more than 24 bits.
pub const EXACT: u128 = 0x100_0000;

/// The distance between neighbours that single precision holds around `n`: the power of two that
/// leaves 24 bits of `n`.
pub open spec fn ulp(n: nat) -> nat
    decreases n,
{
    if n < EXACT {
        1
    } else {
        2 * ulp(n / 2)
    }
}

/// The multiple of `unit` nearest to `n`, a tie going to the even multiple.
pub open spec fn nearest(n: nat, unit: nat) -> nat {
    let down = n / unit;
    let rest = n % unit;
    if 2 * rest > unit || (2 * rest == unit && down % 2 == 1) {
        (down + 1) * unit
    } else {
        down * unit
    }
}

/// The single-precision number nearest to a whole number.
pub open spec fn single(n: int) -> int {
    if n < 0 {
        -nearest((-n) as nat, ulp((-n) as nat))
    } else {
        nearest(n as nat, ulp(n as nat)) as int
    }
}

/// The whole number nearest to a number of halves, a tie going away from zero.
pub open spec fn round_halves(halves: int) -> int {
    if halves < 0 {
        -((1 - halves) / 2)
    } else {
        (halves + 1) / 2
    }
}

/// Neighbours are at least one apart, and no further than the number is from zero.
proof fn ulp_bounds(n: nat)
    ensures
        1 <= ulp(n),
        n >= EXACT ==> ulp(n) <= n,
    decreases n,
{
    if n >= EXACT {
        ulp_bounds(n / 2);
    }
}

/// Rounding at most doubles a number.
proof fn nearest_bounds(n: nat)
    ensures
        nearest(n, ulp(n)) <= 2 * n,
{
    ulp_bounds(n);
    let unit = ulp(n);
    let down = n / unit;
    vstd::arithmetic::div_mod::lemma_fundamental_div_mod(n as int, unit as int);
    if n < EXACT {
        assert(n / 1 == n && n % 1 == 0);
    } else {
        assert((down + 1) * unit == unit * down + unit) by (nonlinear_arith);
        assert(down * unit == unit * down) by (nonlinear_arith);
    }
}

/// Whole numbers up to `EXACT`, on either side of zero, are exact in single precision.
pub proof fn single_is_exact(n: int)
    requires
        -EXACT <= n <= EXACT,
    ensures
        single(n) == n,
{
    let m = (if n < 0 { -n } else { n }) as nat;
    reveal_with_fuel(ulp, 2);
    if m < EXACT {
        assert(ulp(m) == 1);
        assert(m / 1 == m && m % 1 == 0);
        assert(nearest(m, 1) == m);
    } else {
        assert(ulp(m) == 2);
        assert(nearest(m, 2) == m);
    }
}

/// The unit leaves exactly 24 bits: it is a power of two, and as soon as a number takes more than
/// 24 bits, from 2^23 to less than 2^24 units make up the number.
pub proof fn unit_leaves_24_bits(n: nat)
    ensures
        n < 16777216 * ulp(n),
        n < 16777216 ==> ulp(n) == 1,
        n >= 16777216 ==> 8388608 * ulp(n) <= n,
        exists|e: nat| ulp(n) == #[trigger] vstd::arithmetic::power2::pow2(e),
    decreases n,
{
    broadcast use vstd::arithmetic::power2::lemma_pow2_unfold;

    if n < 16777216 {
        assert(vstd::arithmetic::power2::pow2(0) == 1) by {
            vstd::arithmetic::power2::lemma2_to64();
        }
    } else {
        unit_leaves_24_bits(n / 2);
        let e = choose|e: nat| ulp(n / 2) == #[trigger] vstd::arithmetic::power2::pow2(e);
        assert(vstd::arithmetic::power2::pow2((e + 1) as nat) == 2 * ulp(n / 2));
    }
}

/// Rounding goes to the nearest multiple of the unit, never further away than half of one, and
/// half-way to the even multiple. It treats both sides of zero alike.
pub proof fn single_is_nearest(n: nat)
    ensures
        single(-n) == -single(n as int),
        exists|k: int|
            #![trigger k * ulp(n)]
            {
                &&& single(n as int) == k * ulp(n)
                &&& -ulp(n) <= 2 * (single(n as int) - n) <= ulp(n)
                &&& 2 * (single(n as int) - n) == ulp(n) ==> k % 2 == 0
                &&& 2 * (single(n as int) - n) == -ulp(n) ==> k % 2 == 0
            },
{
    ulp_bounds(n);
    let unit = ulp(n);
    let down = n / unit;
    let rest = n % unit;
    vstd::arithmetic::div_mod::lemma_fundamental_div_mod(n as int, unit as int);
    assert(0 <= rest < unit) by {
        vstd::arithmetic::div_mod::lemma_mod_bound(n as int, unit as int);
    }
    assert((down + 1) * unit == unit * down + unit) by (nonlinear_arith);
    assert(down * unit == unit * down) by (nonlinear_arith);
    if 2 * rest > unit || (2 * rest == unit && down % 2 == 1) {
        assert(single(n as int) == (down + 1) * unit);
    } else {
        assert(single(n as int) == down * unit);
    }
}

/// Rounding keeps the sign.
pub proof fn single_sign(n: int)
    ensures
        n >= 0 ==> single(n) >= 0,
        n <= 0 ==> single(n) <= 0,
{
    nearest_bounds(0);
}

/// Rounding at most doubles a number, and keeps its sign.
pub proof fn single_at_most_doubles(n: int)
    ensures
        n >= 0 ==> 0 <= single(n) <= 2 * n,
        n <= 0 ==> 2 * n <= single(n) <= 0,
{
    nearest_bounds((if n < 0 { -n } else { n }) as nat);
}

/// A whole number of halves is rounded to that number of wholes; a half left over is rounded away
/// from zero. Both sides of zero are treated alike.
pub proof fn halves_round_away_from_zero(halves: int)
    ensures
        halves % 2 == 0 ==> 2 * round_halves(halves) == halves,
        halves % 2 == 1 && halves > 0 ==> 2 * round_halves(halves) == halves + 1,
        halves % 2 == 1 && halves < 0 ==> 2 * round_halves(halves) == halves - 1,
        round_halves(-halves) == -round_halves(halves),
{
}

/// The distance between neighbours around `n`.
fn unit_of(n: u128) -> (unit: u128)
    ensures
        unit == ulp(n as nat),
    decreases n,
{
    proof {
        ulp_bounds(n as nat);
    }
    if n < EXACT {
        1
    } else {
        proof {
            ulp_bounds((n / 2) as nat);
        }
        2 * unit_of(n / 2)
    }
}

/// The single-precision number nearest to a number that is not negative.
fn round_magnitude(n: u128) -> (r: u128)
    requires
        n <= 0x1000_0000_0000_0000_0000_0000_0000,
    ensures
        r == nearest(n as nat, ulp(n as nat)),
        r <= 2 * n,
{
    proof {
        ulp_bounds(n as nat);
        nearest_bounds(n as nat);
    }
    let unit: u128 = unit_of(n);
    let down: u128 = n / unit;
    let rest: u128 = n % unit;
    proof {
        vstd::arithmetic::div_mod::lemma_fundamental_div_mod(n as int, unit as int);
        assert((down + 1) * unit == unit * down + unit) by (nonlinear_arith);
        assert(down * unit == unit * down) by (nonlinear_arith);
        if n < EXACT {
            assert(n / 1 == n);
        }
        assert(down <= n) by (nonlinear_arith)
            requires
                down == n / unit,
                unit >= 1,
        ;
    }
    if rest > unit - rest || (rest == unit - rest && down % 2 == 1) {
        (down + 1) * unit
    } else {
        down * unit
    }
}

/// The single-precision number nearest to a whole number.
pub(crate) fn to_single(n: i128) -> (r: i128)
    requires
        -0x1000_0000_0000_0000_0000_0000_0000 <= n <= 0x1000_0000_0000_0000_0000_0000_0000,
    ensures
        r == single(n as int),
        n >= 0 ==> 0 <= r <= 2 * n,
        n <= 0 ==> 2 * n <= r <= 0,
{
    if n < 0 {
        -(round_magnitude((-n) as u128) as i128)
    } else {
        round_magnitude(n as u128) as i128
    }
}

/// The whole number nearest to a number of halves, a tie going away from zero.
pub(crate) fn halves_to_whole(halves: i128) -> (r: i128)
    requires
        -i128::MAX < halves < i128::MAX,
    ensures
        r == round_halves(halves as int),
{
    if halves < 0 {
        -((1 - halves) / 2)
    } else {
        (halves + 1) / 2
    }
}

} // verus!
