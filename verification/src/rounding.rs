//! Rounding of quotients to whole numbers, and of whole numbers to binary64.

use vstd::prelude::*;
use vstd::arithmetic::div_mod::lemma_fundamental_div_mod;

verus! {

/// The least whole number that binary64 cannot tell from its successor: 2^53.
pub const BINARY64_EXACT_LIMIT: u64 = 0x20_0000_0000_0000;

/// `numer / denom` rounded to the nearest whole number. A quotient that lies
/// exactly between two whole numbers goes to the even one.
pub open spec fn round_half_even(numer: nat, denom: nat) -> nat
    recommends
        denom > 0,
{
    let q = numer / denom;
    let r = numer % denom;
    if 2 * r > denom || (2 * r == denom && q % 2 == 1) {
        q + 1
    } else {
        q
    }
}

/// The distance between neighbouring binary64 numbers at `n`: the least power
/// of two `u` for which `n / u` is below 2^53.
pub open spec fn binary64_spacing(n: nat) -> nat
    decreases n,
{
    if n < BINARY64_EXACT_LIMIT {
        1
    } else {
        2 * binary64_spacing(n / 2)
    }
}

/// The binary64 number nearest to `n`, a tie going to the one with an even
/// significand. It is `n` itself below 2^53.
pub open spec fn nearest_binary64(n: nat) -> nat {
    round_half_even(n, binary64_spacing(n)) * binary64_spacing(n)
}

/// Computes `round_half_even(numer, denom)`.
pub(crate) fn div_round_half_even(numer: u128, denom: u128) -> (rounded: u128)
    requires
        denom > 0,
    ensures
        rounded == round_half_even(numer as nat, denom as nat),
{
    let q: u128 = numer / denom;
    let r: u128 = numer % denom;
    let rest: u128 = denom - r;
    if r > rest || (r == rest && q % 2 == 1) {
        proof {
            lemma_fundamental_div_mod(numer as int, denom as int);
            assert(2 * q <= denom * q) by (nonlinear_arith)
                requires
                    denom >= 2,
                    q >= 0,
            ;
        }
        q + 1
    } else {
        q
    }
}

/// Computes `nearest_binary64(n)`.
pub(crate) fn nearest_binary64_of(n: u64) -> (v: u128)
    ensures
        v == nearest_binary64(n as nat),
        v <= n + 4096,
{
    let mut unit: u64 = 1;
    let mut rest: u64 = n;
    while rest >= BINARY64_EXACT_LIMIT
        invariant
            1 <= unit <= 4096,
            unit * rest <= n,
            binary64_spacing(n as nat) == unit * binary64_spacing(rest as nat),
        decreases rest,
    {
        proof {
            let half = rest / 2;
            assert(unit * BINARY64_EXACT_LIMIT <= unit * rest) by (nonlinear_arith)
                requires
                    rest >= BINARY64_EXACT_LIMIT,
                    unit >= 1,
            ;
            assert((unit * 2) * half <= unit * rest) by (nonlinear_arith)
                requires
                    2 * half <= rest,
                    unit >= 1,
            ;
            assert(unit * (2 * binary64_spacing(half as nat)) == (unit * 2) * binary64_spacing(
                half as nat,
            )) by (nonlinear_arith);
        }
        rest = rest / 2;
        unit = unit * 2;
    }
    let q: u128 = div_round_half_even(n as u128, unit as u128);
    proof {
        assert(binary64_spacing(rest as nat) == 1);
        assert(binary64_spacing(n as nat) == unit) by (nonlinear_arith)
            requires
                binary64_spacing(n as nat) == unit * binary64_spacing(rest as nat),
                binary64_spacing(rest as nat) == 1,
        ;
        lemma_fundamental_div_mod(n as int, unit as int);
        assert(unit * (n / unit) <= n);
        assert(q * unit <= n + unit) by (nonlinear_arith)
            requires
                q <= n / unit + 1,
                unit * (n / unit) <= n,
                unit >= 1,
        ;
    }
    q * (unit as u128)
}

} // verus!
