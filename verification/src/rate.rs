//! Rational rates and conversion between timestamps and logical indices.
//!
//! A rate (frames per second or samples per second) is a rational number.
//! Every flow timeline is addressed by a logical index; the domain clock
//! converts between a TAI timestamp in nanoseconds and the index that is
//! current at that timestamp, at a given rate. The conversions are pure
//! integer arithmetic with flooring.

use vstd::prelude::*;

verus! {

/// Nanoseconds per second, the resolution of every timestamp in this crate.
pub const NS_PER_SECOND: u64 = 1_000_000_000;

/// The largest accepted rate numerator: one unit per nanosecond. Rates above
/// this would let an index outrun a nanosecond timestamp, which the index
/// arithmetic below relies on never happening.
pub const MAX_RATE_NUMERATOR: u32 = 1_000_000_000;

/// A rational rate: `numerator / denominator` units per second.
///
/// A zero numerator or denominator makes a rate invalid; queries on an
/// invalid rate fail, they never panic.
#[derive(Clone, Copy, Debug, PartialEq, Eq, Structural)]
pub struct Rational {
    /// Units per `denominator` seconds.
    pub numerator: u32,
    /// Seconds per `numerator` units.
    pub denominator: u32,
}

/// A rate is usable when both parts are nonzero and the numerator does not
/// exceed one unit per nanosecond.
pub open spec fn rate_valid(rate: Rational) -> bool {
    1 <= rate.numerator <= MAX_RATE_NUMERATOR && 1 <= rate.denominator
}

/// The index current at `timestamp_ns` for `rate`:
/// `floor(timestamp * numerator / (denominator * 10^9))`.
pub open spec fn spec_timestamp_to_index(timestamp_ns: u64, rate: Rational) -> int {
    (timestamp_ns * rate.numerator) as int / (rate.denominator * NS_PER_SECOND) as int
}

/// The first timestamp at which `index` is current for `rate`:
/// `ceil(index * 10^9 * denominator / numerator)`, so that converting the
/// timestamp back yields `index` again.
pub open spec fn spec_index_to_timestamp(index: u64, rate: Rational) -> int {
    ((index * NS_PER_SECOND * rate.denominator) as int + rate.numerator - 1) / rate.numerator as int
}

/// The two conversions are mutual inverses at index boundaries: the first
/// timestamp of an index maps back to that index.
pub proof fn lemma_conversion_round_trip(index: u64, rate: Rational)
    requires
        rate_valid(rate),
        spec_index_to_timestamp(index, rate) <= u64::MAX,
    ensures
        spec_timestamp_to_index(spec_index_to_timestamp(index, rate) as u64, rate) == index,
{
    let i = index as int;
    let num = rate.numerator as int;
    let den = rate.denominator as int;
    let ns = NS_PER_SECOND as int;
    let divisor = den * ns;
    let t = spec_index_to_timestamp(index, rate);
    assert(1 <= num <= divisor) by (nonlinear_arith)
        requires
            1 <= num <= ns,
            1 <= den,
            divisor == den * ns,
    ;
    assert(i * ns * den == i * divisor) by (nonlinear_arith)
        requires
            divisor == den * ns,
    ;
    assert(t == (i * divisor + num - 1) / num);
    // t = ceil(i * divisor / num): bound t * num around i * divisor.
    vstd::arithmetic::div_mod::lemma_fundamental_div_mod(i * divisor + num - 1, num);
    assert(t * num == i * divisor + num - 1 - ((i * divisor + num - 1) % num))
        by (nonlinear_arith)
        requires
            t == (i * divisor + num - 1) / num,
            i * divisor + num - 1 == num * ((i * divisor + num - 1) / num) + ((i * divisor + num
                - 1) % num),
    ;
    assert(0 <= (i * divisor + num - 1) % num < num) by (nonlinear_arith)
        requires
            1 <= num,
            0 <= i * divisor + num - 1,
    ;
    assert(i * divisor <= t * num <= i * divisor + num - 1);
    assert(0 <= t) by (nonlinear_arith)
        requires
            t * num >= i * divisor,
            0 <= i * divisor,
            1 <= num,
            t == (i * divisor + num - 1) / num,
    ;
    // So t * num lies in [i * divisor, (i + 1) * divisor), which pins the
    // floored quotient back to i.
    assert(t * num < (i + 1) * divisor) by (nonlinear_arith)
        requires
            t * num <= i * divisor + num - 1,
            num <= divisor,
    ;
    vstd::arithmetic::div_mod::lemma_fundamental_div_mod_converse(
        t * num,
        divisor,
        i,
        t * num - i * divisor,
    );
    assert((t as u64) * rate.numerator == t * num);
}

/// A valid rate never maps a timestamp to an index above the timestamp
/// itself, because the numerator is capped at one unit per nanosecond.
pub proof fn lemma_index_le_timestamp(timestamp_ns: u64, rate: Rational)
    requires
        rate_valid(rate),
    ensures
        0 <= spec_timestamp_to_index(timestamp_ns, rate) <= timestamp_ns,
{
    let num = rate.numerator as int;
    let den = rate.denominator as int;
    let ns = NS_PER_SECOND as int;
    let t = timestamp_ns as int;
    assert(num <= den * ns) by (nonlinear_arith)
        requires
            1 <= num <= ns,
            1 <= den,
    ;
    assert(t * num <= t * (den * ns)) by (nonlinear_arith)
        requires
            num <= den * ns,
            0 <= t,
    ;
    assert(t * (den * ns) / (den * ns) == t) by (nonlinear_arith)
        requires
            1 <= den * ns,
            0 <= t,
    ;
    assert(t * num / (den * ns) <= t * (den * ns) / (den * ns)) by (nonlinear_arith)
        requires
            1 <= den * ns,
            t * num <= t * (den * ns),
    ;
    assert(0 <= t * num / (den * ns)) by (nonlinear_arith)
        requires
            1 <= den * ns,
            0 <= t,
            0 <= num,
    ;
}

/// Index-to-timestamp conversion is monotone in the index.
pub proof fn lemma_index_to_timestamp_monotone(a: u64, b: u64, rate: Rational)
    requires
        rate_valid(rate),
        a <= b,
    ensures
        spec_index_to_timestamp(a, rate) <= spec_index_to_timestamp(b, rate),
{
    let ns = NS_PER_SECOND as int;
    let den = rate.denominator as int;
    let num = rate.numerator as int;
    assert((a as int) * ns <= (b as int) * ns) by (nonlinear_arith)
        requires
            a <= b,
            0 <= ns,
    ;
    assert((a as int) * ns * den <= (b as int) * ns * den) by (nonlinear_arith)
        requires
            (a as int) * ns <= (b as int) * ns,
            0 <= den,
    ;
    assert(((a as int) * ns * den + num - 1) / num <= ((b as int) * ns * den + num - 1) / num)
        by (nonlinear_arith)
        requires
            (a as int) * ns * den <= (b as int) * ns * den,
            1 <= num,
    ;
}

impl Rational {
    /// True when the rate can be used in conversions.
    pub fn is_valid(&self) -> (r: bool)
        ensures
            r == rate_valid(*self),
    {
        1 <= self.numerator && self.numerator <= MAX_RATE_NUMERATOR && 1 <= self.denominator
    }
}

/// Converts a timestamp to the index current at that timestamp.
///
/// Returns `None` exactly when the rate is invalid; a valid rate always
/// yields an index, and that index never exceeds the timestamp.
pub fn timestamp_to_index(timestamp_ns: u64, rate: &Rational) -> (r: Option<u64>)
    ensures
        rate_valid(*rate) <==> r is Some,
        r matches Some(i) ==> i == spec_timestamp_to_index(timestamp_ns, *rate) && i
            <= timestamp_ns,
{
    if !rate.is_valid() {
        return None;
    }
    proof {
        lemma_index_le_timestamp(timestamp_ns, *rate);
        assert((timestamp_ns as int) * (rate.numerator as int) <= (u64::MAX as int) * (
        u32::MAX as int)) by (nonlinear_arith)
            requires
                timestamp_ns <= u64::MAX,
                rate.numerator <= u32::MAX,
        ;
    }
    let wide: u128 = (timestamp_ns as u128) * (rate.numerator as u128);
    let divisor: u128 = (rate.denominator as u128) * (NS_PER_SECOND as u128);
    let quotient: u128 = wide / divisor;
    assert(quotient == spec_timestamp_to_index(timestamp_ns, *rate));
    Some(quotient as u64)
}

/// Converts an index to the first timestamp at which it is current.
///
/// Returns `None` when the rate is invalid or the timestamp would not fit in
/// 64 bits (a slow rate at an astronomically large index).
pub fn index_to_timestamp(index: u64, rate: &Rational) -> (r: Option<u64>)
    ensures
        r matches Some(t) ==> rate_valid(*rate) && t == spec_index_to_timestamp(index, *rate),
        r is None <==> !rate_valid(*rate) || spec_index_to_timestamp(index, *rate) > u64::MAX,
{
    if !rate.is_valid() {
        return None;
    }
    proof {
        assert((index as int) * (NS_PER_SECOND as int) <= (u64::MAX as int) * (
        NS_PER_SECOND as int)) by (nonlinear_arith)
            requires
                index <= u64::MAX,
        ;
        assert((index as int) * (NS_PER_SECOND as int) * (rate.denominator as int) <= (
        u64::MAX as int) * (NS_PER_SECOND as int) * (u32::MAX as int)) by (nonlinear_arith)
            requires
                (index as int) * (NS_PER_SECOND as int) <= (u64::MAX as int) * (
                NS_PER_SECOND as int),
                rate.denominator <= u32::MAX,
        ;
    }
    let wide: u128 = (index as u128) * (NS_PER_SECOND as u128) * (rate.denominator as u128);
    let quotient: u128 = (wide + (rate.numerator as u128 - 1)) / (rate.numerator as u128);
    assert(quotient == spec_index_to_timestamp(index, *rate));
    if quotient > u64::MAX as u128 {
        return None;
    }
    Some(quotient as u64)
}

} // verus!
