use vl53l0x_core::codec::{
    calc_macro_period, decode_timeout, decode_vcsel_period, encode_timeout, encode_vcsel_period,
    timeout_mclks_to_microseconds, timeout_microseconds_to_mclks, CodecError,
};

#[test]
fn timeout_round_trip_on_representable_counts() {
    // Every count of the form (m << e) + 1 with byte-sized mantissa and
    // exponent that fits 16 bits survives the round trip unchanged.
    for e in 0..=7u16 {
        for m in 0..=255u16 {
            let x: u16 = (m << e) + 1;
            assert_eq!(decode_timeout(encode_timeout(x)), x);
        }
    }
    for m in 0..=255u16 {
        let x: u16 = m * 256 + 1;
        assert_eq!(decode_timeout(encode_timeout(x)), x);
    }
}

#[test]
fn timeout_zero_asymmetry() {
    // Documented asymmetry: the two functions are not inverses at zero.
    assert_eq!(decode_timeout(0), 1);
    assert_eq!(encode_timeout(0), 0);
}

#[test]
fn timeout_encode_exact_values() {
    assert_eq!(encode_timeout(1), 0);
    assert_eq!(encode_timeout(2), 0x0001);
    assert_eq!(encode_timeout(258), 0x0180);
    assert_eq!(decode_timeout(0x0180), 257);
    // A zero mantissa decodes to 1 whatever the exponent byte holds.
    assert_eq!(decode_timeout(0xFF00), 1);
}

#[test]
fn vcsel_round_trip_even_periods() {
    let mut p: u8 = 2;
    loop {
        let encoded = encode_vcsel_period(p).unwrap();
        assert_eq!(decode_vcsel_period(encoded), p);
        if p == 254 {
            break;
        }
        p += 2;
    }
}

#[test]
fn vcsel_encode_rejects_odd_or_small() {
    assert_eq!(encode_vcsel_period(0), Err(CodecError::InvalidVcselPeriod));
    assert_eq!(encode_vcsel_period(1), Err(CodecError::InvalidVcselPeriod));
    assert_eq!(encode_vcsel_period(3), Err(CodecError::InvalidVcselPeriod));
    assert_eq!(encode_vcsel_period(255), Err(CodecError::InvalidVcselPeriod));
}

#[test]
fn macro_period_for_24_pclks() {
    assert_eq!(calc_macro_period(24), 91515);
}

#[test]
fn timeout_unit_conversion_exact_values() {
    assert_eq!(timeout_mclks_to_microseconds(99, 24), 9105);
    assert_eq!(timeout_microseconds_to_mclks(9105, 24), 99);
}

#[test]
fn timeout_unit_conversion_round_trip_within_one() {
    // Converting a macro-clock count to microseconds and back never
    // undershoots and overshoots by at most one count.
    for &pclks in &[1u8, 8, 14, 18, 24, 255] {
        for &mclks in &[0u16, 1, 99, 255, 3468, 65535] {
            let macro_period = calc_macro_period(pclks) as u64;
            if (mclks as u64) * macro_period + macro_period / 2 <= u32::MAX as u64 {
                let us = timeout_mclks_to_microseconds(mclks, pclks);
                if (us as u64) * 1000 + macro_period / 2 <= u32::MAX as u64 {
                    let back = timeout_microseconds_to_mclks(us, pclks);
                    assert!(back >= mclks as u32);
                    assert!(back <= mclks as u32 + 1);
                }
            }
        }
    }
}
