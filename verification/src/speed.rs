//! Reading speed of a dialogue, in thousandths of a character per second.

use vstd::prelude::*;

verus! {

/// Thousandths of a character per second, for `chars_read` characters read over
/// `duration_ms` milliseconds, rounded down; zero when no time has passed.
pub open spec fn reading_speed_milli(chars_read: nat, duration_ms: nat) -> nat {
    if duration_ms > 0 {
        (chars_read * 1_000_000) / duration_ms
    } else {
        0
    }
}

/// The reading speed in thousandths of a character per second; zero when
/// no time has passed.
pub fn reading_speed(chars_read: usize, duration_ms: u128) -> (speed: u128)
    ensures
        speed == reading_speed_milli(chars_read as nat, duration_ms as nat),
{
    if duration_ms > 0 {
        let scaled: u128 = (chars_read as u128) * 1_000_000u128;
        scaled / duration_ms
    } else {
        0
    }
}

/// The speed is the quotient of characters by seconds, to a thousandth: times
/// the duration it is at most the characters read and misses them by less than
/// one step of the duration. With no time passed it is zero.
pub proof fn lemma_reading_speed_is_quotient(chars_read: nat, duration_ms: nat)
    ensures
        duration_ms == 0 ==> reading_speed_milli(chars_read, duration_ms) == 0,
        duration_ms > 0 ==> reading_speed_milli(chars_read, duration_ms) * duration_ms
            <= chars_read * 1_000_000 < (reading_speed_milli(chars_read, duration_ms) + 1)
            * duration_ms,
{
    if duration_ms > 0 {
        let n = (chars_read * 1_000_000) as int;
        let d = duration_ms as int;
        vstd::arithmetic::div_mod::lemma_fundamental_div_mod(n, d);
        vstd::arithmetic::div_mod::lemma_mod_bound(n, d);
        assert((n / d) * d == d * (n / d)) by (nonlinear_arith);
        assert((n / d + 1) * d == d * (n / d) + d) by (nonlinear_arith);
    }
}

/// Reading for longer at the same count is never faster, and reading more in
/// the same time is never slower.
pub proof fn lemma_reading_speed_monotone(chars_a: nat, chars_b: nat, ms_a: nat, ms_b: nat)
    requires
        chars_a <= chars_b,
        0 < ms_b <= ms_a,
    ensures
        reading_speed_milli(chars_a, ms_a) <= reading_speed_milli(chars_b, ms_b),
{
    let na = (chars_a * 1_000_000) as int;
    let nb = (chars_b * 1_000_000) as int;
    vstd::arithmetic::div_mod::lemma_div_is_ordered(na, nb, ms_a as int);
    vstd::arithmetic::div_mod::lemma_div_is_ordered_by_denominator(nb, ms_b as int, ms_a as int);
}

} // verus!
