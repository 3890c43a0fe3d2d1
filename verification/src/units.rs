//! Byte counts, rates and ratios written for a reader, in units that grow by
//! 1024.

use vstd::prelude::*;
use crate::decimal::{
    decimal, is_digit, lemma_decimal_starts_with_digit, push_decimal, push_two_decimals,
    two_decimals,
};
use crate::rounding::{div_round_half_even, nearest_binary64, nearest_binary64_of, round_half_even};
use crate::stats::{Rate, Ratio, NANOS_PER_SEC};

verus! {

/// Bytes in a kilobyte.
pub const KIB: usize = 1024;

/// Bytes in a megabyte.
pub const MIB: usize = 1024 * 1024;

/// Bytes in a gigabyte.
pub const GIB: usize = 1024 * 1024 * 1024;

/// `value / unit` with two decimals, rounded to the nearest hundredth, a tie
/// going to the even one.
pub open spec fn scaled(value: nat, unit: nat) -> Seq<char>
    recommends
        unit > 0,
{
    two_decimals(round_half_even(value * 100, unit))
}

/// A byte count as text. Below 1024 it is the count itself and ` B`. From
/// there on it is the count in the largest of KB, MB and GB that does not
/// exceed it, with two decimals. A count in GB is first taken to the nearest
/// binary64 number, which changes nothing below 2^53.
pub open spec fn bytes_text(bytes: nat) -> Seq<char> {
    if bytes < KIB {
        decimal(bytes) + seq![' ', 'B']
    } else if bytes < MIB {
        scaled(bytes, KIB as nat) + seq![' ', 'K', 'B']
    } else if bytes < GIB {
        scaled(bytes, MIB as nat) + seq![' ', 'M', 'B']
    } else {
        scaled(nearest_binary64(bytes), GIB as nat) + seq![' ', 'G', 'B']
    }
}

/// Appends `scaled(value, unit)` to `out`.
pub(crate) fn push_scaled(out: &mut String, value: u128, unit: u128)
    requires
        unit > 0,
        value * 100 <= u128::MAX,
    ensures
        final(out)@ == old(out)@ + scaled(value as nat, unit as nat),
{
    let hundredths: u128 = div_round_half_even(value * 100, unit);
    push_two_decimals(out, hundredths);
}

/// Writes a byte count with the unit that suits its size.
pub fn format_bytes(bytes: usize) -> (text: String)
    ensures
        text@ == bytes_text(bytes as nat),
{
    let mut text = String::new();
    if bytes < KIB {
        proof {
            reveal_strlit(" B");
        }
        push_decimal(&mut text, bytes as u128);
        text.append(" B");
    } else if bytes < MIB {
        proof {
            reveal_strlit(" KB");
        }
        push_scaled(&mut text, bytes as u128, KIB as u128);
        text.append(" KB");
    } else if bytes < GIB {
        proof {
            reveal_strlit(" MB");
        }
        push_scaled(&mut text, bytes as u128, MIB as u128);
        text.append(" MB");
    } else {
        proof {
            reveal_strlit(" GB");
        }
        let value: u128 = nearest_binary64_of(bytes as u64);
        push_scaled(&mut text, value, GIB as u128);
        text.append(" GB");
    }
    assert(text@ =~= bytes_text(bytes as nat));
    text
}

/// A rate as text: bytes per second in the largest of B/s, KB/s, MB/s and GB/s
/// that does not exceed it (B/s below 1024 bytes per second), with two
/// decimals. Where there is no rate, and so over no time at all, the text is
/// `n/a`.
pub open spec fn rate_text(rate: Option<Rate>) -> Seq<char> {
    match rate {
        Some(rate) if rate.is_defined() => {
            let scaled_bytes = rate.bytes as nat * NANOS_PER_SEC as nat;
            let nanos = rate.nanos as nat;
            if scaled_bytes < KIB * nanos {
                scaled(scaled_bytes, nanos) + seq![' ', 'B', '/', 's']
            } else if scaled_bytes < MIB * nanos {
                scaled(scaled_bytes, KIB as nat * nanos) + seq![' ', 'K', 'B', '/', 's']
            } else if scaled_bytes < GIB * nanos {
                scaled(scaled_bytes, MIB as nat * nanos) + seq![' ', 'M', 'B', '/', 's']
            } else {
                scaled(scaled_bytes, GIB as nat * nanos) + seq![' ', 'G', 'B', '/', 's']
            }
        },
        _ => seq!['n', '/', 'a'],
    }
}

/// The text of a rate is a number and its unit, or `n/a`: it begins with a
/// digit where there is a rate, and never stands for an infinite or an
/// undefined value.
pub proof fn lemma_rate_text_is_finite(rate: Option<Rate>)
    ensures
        rate_text(rate).len() > 0,
        (rate matches Some(r) && r.is_defined()) ==> is_digit(rate_text(rate)[0]),
        !(rate matches Some(r) && r.is_defined()) ==> rate_text(rate) == seq!['n', '/', 'a'],
        rate_text(rate)[0] != 'i',
        rate_text(rate)[0] != 'N',
{
    if let Some(r) = rate {
        if r.is_defined() {
            let scaled_bytes = r.bytes as nat * NANOS_PER_SEC as nat;
            let nanos = r.nanos as nat;
            lemma_decimal_starts_with_digit(round_half_even(scaled_bytes * 100, nanos) / 100);
            lemma_decimal_starts_with_digit(
                round_half_even(scaled_bytes * 100, KIB as nat * nanos) / 100,
            );
            lemma_decimal_starts_with_digit(
                round_half_even(scaled_bytes * 100, MIB as nat * nanos) / 100,
            );
            lemma_decimal_starts_with_digit(
                round_half_even(scaled_bytes * 100, GIB as nat * nanos) / 100,
            );
        }
    }
}

/// A ratio as text, with two decimals. A ratio over zero is written `inf`, and
/// `NaN` where it is zero over zero.
pub open spec fn ratio_text(ratio: Ratio) -> Seq<char> {
    if ratio.denom == 0 {
        if ratio.numer == 0 {
            seq!['N', 'a', 'N']
        } else {
            seq!['i', 'n', 'f']
        }
    } else {
        scaled(ratio.numer as nat, ratio.denom as nat)
    }
}

/// Writes a rate with the unit that suits its size, and `n/a` where there is
/// none.
pub fn format_rate(rate: Option<Rate>) -> (text: String)
    ensures
        text@ == rate_text(rate),
{
    let mut text = String::new();
    let (bytes, nanos): (u128, u128) = match rate {
        Some(rate) => (rate.bytes as u128, rate.nanos as u128),
        None => (0, 0),
    };
    let scaled_bytes: u128 = bytes * (NANOS_PER_SEC as u128);
    if nanos == 0 {
        proof {
            reveal_strlit("n/a");
        }
        text.append("n/a");
    } else if scaled_bytes < (KIB as u128) * nanos {
        proof {
            reveal_strlit(" B/s");
        }
        push_scaled(&mut text, scaled_bytes, nanos);
        text.append(" B/s");
    } else if scaled_bytes < (MIB as u128) * nanos {
        proof {
            reveal_strlit(" KB/s");
        }
        push_scaled(&mut text, scaled_bytes, (KIB as u128) * nanos);
        text.append(" KB/s");
    } else if scaled_bytes < (GIB as u128) * nanos {
        proof {
            reveal_strlit(" MB/s");
        }
        push_scaled(&mut text, scaled_bytes, (MIB as u128) * nanos);
        text.append(" MB/s");
    } else {
        proof {
            reveal_strlit(" GB/s");
        }
        push_scaled(&mut text, scaled_bytes, (GIB as u128) * nanos);
        text.append(" GB/s");
    }
    assert(text@ =~= rate_text(rate));
    text
}

/// Writes a ratio with two decimals.
pub fn format_ratio(ratio: Ratio) -> (text: String)
    ensures
        text@ == ratio_text(ratio),
{
    let mut text = String::new();
    if ratio.denom == 0 {
        proof {
            reveal_strlit("NaN");
            reveal_strlit("inf");
        }
        if ratio.numer == 0 {
            text.append("NaN");
        } else {
            text.append("inf");
        }
    } else {
        push_scaled(&mut text, ratio.numer as u128, ratio.denom as u128);
    }
    assert(text@ =~= ratio_text(ratio));
    text
}

} // verus!
