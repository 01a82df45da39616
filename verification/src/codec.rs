//! Numeric codecs for the sensor's compact on-chip timing representations.
//!
//! Three independent pure conversions live here:
//! - the timeout codec, packing a macro-clock timeout count into a 16-bit
//!   mantissa/exponent register encoding and back;
//! - the macro-period arithmetic, converting between macro-clock counts and
//!   microseconds, parameterized by the VCSEL pulse-width count;
//! - the VCSEL period codec, between a register byte and a pulse period.

use vstd::prelude::*;
use vstd::arithmetic::power2::{
    pow2, lemma2_to64, lemma_pow2_adds, lemma_pow2_pos, lemma_pow2_strictly_increases,
};
use vstd::arithmetic::div_mod::{
    lemma_basic_div, lemma_div_basics, lemma_div_by_multiple, lemma_div_denominator,
    lemma_div_is_ordered, lemma_fundamental_div_mod, lemma_fundamental_div_mod_converse,
};
use vstd::arithmetic::mul::{lemma_mul_basics, lemma_mul_inequality, lemma_mul_is_associative};
use vstd::bits::lemma_u16_shl_is_mul;

verus! {

/// The only failure this crate raises itself: an argument outside a codec's
/// documented input range.  Transport failures are the transport's own error
/// value and never pass through this module.
#[derive(Clone, Copy, Debug, PartialEq, Eq, Structural)]
pub enum CodecError {
    /// `encode_vcsel_period` was given a period that is odd or below 2,
    /// which the register encoding cannot represent.
    InvalidVcselPeriod,
}

/// Duration in nanoseconds of one macro-clock cycle for the given VCSEL
/// pulse-width count: `(2304 * pclks * 1655 + 500) / 1000`, rounded half-up.
/// 2304 is the number of PLL cycles per macro period and 1655 the nominal
/// PLL clock period in picoseconds; both are fixed hardware parameters.
pub open spec fn spec_macro_period(vcsel_period_pclks: u8) -> int {
    (2304 * vcsel_period_pclks * 1655 + 500) / 1000
}

/// Pulse period in PCLKs stored by the given register byte: always even,
/// at least 2.
pub open spec fn spec_decode_vcsel_period(register_value: u8) -> int {
    2 * (register_value + 1)
}

/// Register byte that stores the given (even, at least 2) pulse period.
pub open spec fn spec_encode_vcsel_period(period_pclks: u8) -> int {
    period_pclks / 2 - 1
}

/// Macro-clock count stored by a 16-bit timeout register value: the low
/// byte is a mantissa `m`, the high byte an exponent `e`, and the stored
/// count is `(m << e) + 1`.
pub open spec fn spec_decode_timeout(register_value: u16) -> int {
    (register_value % 256) * pow2((register_value / 256) as nat) + 1
}

/// Smallest exponent `e` such that `v / 2^e` fits in one byte.
pub open spec fn min_exponent(v: nat) -> nat
    decreases v,
{
    if v <= 255 {
        0
    } else {
        1 + min_exponent(v / 2)
    }
}

/// Register encoding of a macro-clock timeout count: 0 is kept as the
/// sentinel 0; a nonzero count `t` stores the smallest exponent `e` with
/// `(t - 1) / 2^e <= 255` in the high byte and `(t - 1) / 2^e` in the low
/// byte.
pub open spec fn spec_encode_timeout(timeout_mclks: u16) -> int {
    if timeout_mclks == 0 {
        0
    } else {
        let v = (timeout_mclks - 1) as nat;
        (256 * min_exponent(v) + v / pow2(min_exponent(v))) as int
    }
}

/// The mantissa `min_exponent` leaves behind really fits in one byte.
proof fn lemma_min_exponent_fits(v: nat)
    ensures
        v / pow2(min_exponent(v)) <= 255,
    decreases v,
{
    lemma2_to64();
    if v <= 255 {
        lemma_div_basics(v as int);
    } else {
        let k = min_exponent(v / 2);
        lemma_min_exponent_fits(v / 2);
        lemma_pow2_pos(k);
        lemma_div_denominator(v as int, 2, pow2(k) as int);
        lemma_pow2_adds(1, k);
    }
}

/// `min_exponent(v)` is minimal: any exponent whose quotient fits in one
/// byte is at least as large.
proof fn lemma_min_exponent_minimal(v: nat, a: nat)
    requires
        v / pow2(a) <= 255,
    ensures
        min_exponent(v) <= a,
    decreases v,
{
    lemma2_to64();
    if v > 255 {
        if a == 0 {
            lemma_div_basics(v as int);
            assert(false);
        } else {
            lemma_pow2_pos((a - 1) as nat);
            lemma_div_denominator(v as int, 2, pow2((a - 1) as nat) as int);
            lemma_pow2_adds(1, (a - 1) as nat);
            lemma_min_exponent_minimal(v / 2, (a - 1) as nat);
        }
    }
}

/// Decode a timeout register value into its macro-clock count.
///
/// The count a register value denotes can exceed 16 bits (a large mantissa
/// under a large exponent); only values whose count fits are in this
/// codec's range, which covers everything `encode_timeout` produces.
pub fn decode_timeout(register_value: u16) -> (r: u16)
    requires
        spec_decode_timeout(register_value) <= u16::MAX,
    ensures
        r == spec_decode_timeout(register_value),
{
    let mantissa: u16 = register_value % 256;
    let exponent: u16 = register_value / 256;
    if mantissa == 0 {
        proof {
            lemma_mul_basics(pow2(exponent as nat) as int);
        }
        1
    } else {
        proof {
            lemma2_to64();
            if exponent >= 16 {
                if exponent > 16 {
                    lemma_pow2_strictly_increases(16, exponent as nat);
                }
                lemma_mul_basics(pow2(exponent as nat) as int);
                lemma_mul_inequality(1, mantissa as int, pow2(exponent as nat) as int);
                assert(false);
            }
            lemma_u16_shl_is_mul(mantissa, exponent);
        }
        (mantissa << exponent) + 1
    }
}

/// Encode a macro-clock timeout count into its register value.
///
/// Zero is stored as the sentinel 0.  A nonzero count is normalized to the
/// smallest exponent whose mantissa fits in one byte; mantissa bits shifted
/// out this way are lost, so the encoding rounds a count that is not of the
/// form `m * 2^e + 1` down to the nearest one that is.
pub fn encode_timeout(timeout_mclks: u16) -> (r: u16)
    ensures
        r == spec_encode_timeout(timeout_mclks),
{
    if timeout_mclks == 0 {
        return 0;
    }
    let ghost v: nat = (timeout_mclks - 1) as nat;
    let mut ls_byte: u32 = timeout_mclks as u32 - 1;
    let mut ms_byte: u16 = 0;
    proof {
        lemma2_to64();
        lemma_div_basics(v as int);
    }
    while ls_byte > 255
        invariant
            v == timeout_mclks - 1,
            v <= 65534,
            ls_byte == v / pow2(ms_byte as nat),
            min_exponent(v) == ms_byte + min_exponent(ls_byte as nat),
            ms_byte <= 16,
        decreases ls_byte,
    {
        proof {
            let k = ms_byte as nat;
            lemma2_to64();
            lemma_pow2_pos(k);
            if pow2(k) > v {
                lemma_basic_div(v as int, pow2(k) as int);
                assert(false);
            }
            if ms_byte >= 16 {
                assert(false);
            }
            lemma_div_denominator(v as int, pow2(k) as int, 2);
            lemma_pow2_adds(k, 1);
        }
        ls_byte = ls_byte / 2;
        ms_byte = ms_byte + 1;
    }
    ms_byte * 256 + (ls_byte as u16)
}

/// A macro-clock count of the form `m * 2^e + 1`: exactly what a timeout
/// register value with mantissa `m` and exponent `e` stands for.
pub open spec fn timeout_count_of(m: nat, e: nat) -> int {
    (m * pow2(e) + 1) as int
}

/// Any macro-clock count of the form `m * 2^e + 1` with byte-sized `m` and
/// `e` survives a timeout encode/decode round trip unchanged.
pub proof fn lemma_timeout_round_trip(timeout_mclks: u16)
    requires
        1 <= timeout_mclks,
        exists|m: nat, e: nat|
            m <= 255 && e <= 255 && timeout_mclks == #[trigger] timeout_count_of(m, e),
    ensures
        0 <= spec_encode_timeout(timeout_mclks) <= u16::MAX,
        spec_decode_timeout(spec_encode_timeout(timeout_mclks) as u16) == timeout_mclks,
{
    let (m, e) = choose|m: nat, e: nat|
        m <= 255 && e <= 255 && timeout_mclks == #[trigger] timeout_count_of(m, e);
    let v = (timeout_mclks - 1) as nat;
    lemma2_to64();
    lemma_pow2_pos(e);
    if v == 0 {
        lemma_div_basics(0);
        lemma_mul_basics(pow2(0) as int);
    } else {
        if m == 0 {
            lemma_mul_basics(pow2(e) as int);
            assert(false);
        }
        let ep = min_exponent(v);
        lemma_min_exponent_fits(v);
        lemma_div_by_multiple(m as int, pow2(e) as int);
        lemma_min_exponent_minimal(v, e);
        lemma_pow2_adds((e - ep) as nat, ep);
        lemma_mul_is_associative(m as int, pow2((e - ep) as nat) as int, pow2(ep) as int);
        let q = m * pow2((e - ep) as nat);
        assert(v == q * pow2(ep));
        lemma_pow2_pos(ep);
        lemma_div_by_multiple(q as int, pow2(ep) as int);
        lemma_min_exponent_minimal(v, 8);
        lemma_div_is_ordered(v as int, 65534, 256);
        let r = 256 * ep + q;
        assert(spec_encode_timeout(timeout_mclks) == r);
        lemma_fundamental_div_mod_converse(r as int, 256, ep as int, q as int);
        lemma_mul_basics(pow2(ep) as int);
    }
}

/// The documented asymmetry of the timeout codec at zero: the register
/// value 0 decodes to a count of 1, while the count 0 encodes to the
/// register value 0.  The two functions are not mutual inverses there.
pub proof fn lemma_timeout_zero_asymmetry()
    ensures
        spec_decode_timeout(0) == 1,
        spec_encode_timeout(0) == 0,
{
    lemma2_to64();
    lemma_mul_basics(pow2(0) as int);
}

/// Macro period in nanoseconds for a VCSEL pulse-width count, with explicit
/// half-up rounding of the picosecond product.
pub fn calc_macro_period(vcsel_period_pclks: u8) -> (r: u32)
    ensures
        r == spec_macro_period(vcsel_period_pclks),
{
    (2304u32 * (vcsel_period_pclks as u32) * 1655u32 + 500u32) / 1000u32
}

/// Timeout in microseconds for a macro-clock count under the given VCSEL
/// pulse-width count, rounded to the nearest microsecond.
pub open spec fn spec_mclks_to_us(timeout_period_mclks: int, vcsel_period_pclks: u8) -> int {
    let macro_period_ns = spec_macro_period(vcsel_period_pclks);
    (timeout_period_mclks * macro_period_ns + macro_period_ns / 2) / 1000
}

/// Macro-clock count for a timeout in microseconds under the given VCSEL
/// pulse-width count, rounded to the nearest count.
pub open spec fn spec_us_to_mclks(timeout_period_microseconds: int, vcsel_period_pclks: u8) -> int {
    let macro_period_ns = spec_macro_period(vcsel_period_pclks);
    (timeout_period_microseconds * 1000 + macro_period_ns / 2) / macro_period_ns
}

/// Convert a timeout from macro-clock counts to microseconds.
///
/// The nanosecond product must fit the 32-bit arithmetic the conversion is
/// carried out in; every combination the sensor's ranging sequence uses
/// stays far below that bound.
pub fn timeout_mclks_to_microseconds(timeout_period_mclks: u16, vcsel_period_pclks: u8) -> (r:
    u32)
    requires
        timeout_period_mclks * spec_macro_period(vcsel_period_pclks) + spec_macro_period(
            vcsel_period_pclks,
        ) / 2 <= u32::MAX,
    ensures
        r == spec_mclks_to_us(timeout_period_mclks as int, vcsel_period_pclks),
{
    let macro_period_nanoseconds: u32 = calc_macro_period(vcsel_period_pclks);
    ((timeout_period_mclks as u32) * macro_period_nanoseconds + macro_period_nanoseconds / 2)
        / 1000
}

/// Convert a timeout from microseconds to macro-clock counts.
///
/// The VCSEL pulse-width count must be nonzero (a zero count would give a
/// zero-length macro period to divide by), and the nanosecond product must
/// fit 32-bit arithmetic.
pub fn timeout_microseconds_to_mclks(timeout_period_microseconds: u32, vcsel_period_pclks: u8) -> (r:
    u32)
    requires
        vcsel_period_pclks >= 1,
        timeout_period_microseconds * 1000 + spec_macro_period(vcsel_period_pclks) / 2
            <= u32::MAX,
    ensures
        r == spec_us_to_mclks(timeout_period_microseconds as int, vcsel_period_pclks),
{
    proof {
        lemma_macro_period_at_least(vcsel_period_pclks);
    }
    let macro_period_nanoseconds: u32 = calc_macro_period(vcsel_period_pclks);
    (timeout_period_microseconds * 1000 + macro_period_nanoseconds / 2)
        / macro_period_nanoseconds
}

/// A nonzero VCSEL pulse-width count gives a macro period of at least
/// 3813 ns, the period of a single pulse-width clock.
pub proof fn lemma_macro_period_at_least(vcsel_period_pclks: u8)
    requires
        vcsel_period_pclks >= 1,
    ensures
        spec_macro_period(vcsel_period_pclks) >= 3813,
{
    lemma_div_is_ordered((2304 * 1655 + 500) as int, 2304 * vcsel_period_pclks * 1655 + 500, 1000);
}

/// Converting a macro-clock count to microseconds and back overshoots by
/// at most one count and never undershoots: the two conversions round
/// independently, so the round trip is within one unit, not exact.
pub proof fn lemma_timeout_unit_round_trip(timeout_period_mclks: u16, vcsel_period_pclks: u8)
    requires
        vcsel_period_pclks >= 1,
    ensures
        timeout_period_mclks <= spec_us_to_mclks(
            spec_mclks_to_us(timeout_period_mclks as int, vcsel_period_pclks),
            vcsel_period_pclks,
        ) <= timeout_period_mclks + 1,
{
    let mclks = timeout_period_mclks as int;
    let m = spec_macro_period(vcsel_period_pclks);
    lemma_macro_period_at_least(vcsel_period_pclks);
    let a = mclks * m + m / 2;
    let us = a / 1000;
    lemma_fundamental_div_mod(a, 1000);
    assert(1000 * us <= a < 1000 * us + 1000);
    lemma_fundamental_div_mod(m, 2);
    assert(m - 1 <= 2 * (m / 2) <= m);
    assert(us * 1000 + m / 2 <= mclks * m + m) by (nonlinear_arith)
        requires
            1000 * us <= a,
            a == mclks * m + m / 2,
            m - 1 <= 2 * (m / 2) <= m,
    ;
    assert((mclks + 1) * m == mclks * m + m) by (nonlinear_arith);
    lemma_div_is_ordered(us * 1000 + m / 2, (mclks + 1) * m, m);
    lemma_div_by_multiple(mclks + 1, m);
    assert(mclks * m <= us * 1000 + m / 2) by (nonlinear_arith)
        requires
            a < 1000 * us + 1000,
            a == mclks * m + m / 2,
            m - 1 <= 2 * (m / 2) <= m,
            m >= 3813,
    ;
    lemma_div_is_ordered(mclks * m, us * 1000 + m / 2, m);
    lemma_div_by_multiple(mclks, m);
}

/// Decode a VCSEL pulse period in PCLKs from its register byte.
///
/// Register values above 126 would denote a period beyond 254 PCLKs, which
/// neither the sensor nor `encode_vcsel_period` ever produces, so they are
/// outside this codec's contract.
pub fn decode_vcsel_period(register_value: u8) -> (r: u8)
    requires
        register_value <= 126,
    ensures
        r == spec_decode_vcsel_period(register_value),
{
    2 * (register_value + 1)
}

/// Encode a VCSEL pulse period in PCLKs into its register byte.
///
/// Succeeds exactly on the values `decode_vcsel_period` can produce: even
/// periods of at least 2.  An odd period or one below 2 has no register
/// representation and is rejected rather than silently wrapped.
pub fn encode_vcsel_period(period_pclks: u8) -> (r: Result<u8, CodecError>)
    ensures
        period_pclks >= 2 && period_pclks % 2 == 0 ==> r == Ok::<u8, CodecError>(
            (period_pclks / 2 - 1) as u8,
        ),
        period_pclks < 2 || period_pclks % 2 != 0 ==> r == Err::<u8, CodecError>(
            CodecError::InvalidVcselPeriod,
        ),
{
    if period_pclks >= 2 && period_pclks % 2 == 0 {
        Ok(period_pclks / 2 - 1)
    } else {
        Err(CodecError::InvalidVcselPeriod)
    }
}

/// Encoding an even period of at least 2 and decoding the result gives the
/// period back: the two VCSEL codecs are exact inverses on that range.
pub proof fn lemma_vcsel_period_round_trip(period_pclks: u8)
    requires
        2 <= period_pclks,
        period_pclks % 2 == 0,
    ensures
        spec_encode_vcsel_period(period_pclks) <= 126,
        spec_decode_vcsel_period(spec_encode_vcsel_period(period_pclks) as u8)
            == period_pclks,
{
}

} // verus!
