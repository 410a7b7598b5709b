use nwc_pay::errors::LnurlError;
use nwc_pay::hex::{decode_hex, encode_hex};
use nwc_pay::lnurl::{amount_msat_in_range, callback_with_amount, dec_string};

#[test]
fn amount_in_range_is_scaled_to_millisats() {
    assert_eq!(amount_msat_in_range(1000, 1000, 1_000_000).unwrap(), 1_000_000);
}

#[test]
fn amount_boundaries_are_accepted() {
    assert_eq!(amount_msat_in_range(1, 1000, 1000).unwrap(), 1000);
    assert_eq!(amount_msat_in_range(5, 1000, 5000).unwrap(), 5000);
}

#[test]
fn amount_below_minimum_is_rejected() {
    assert_eq!(
        amount_msat_in_range(1, 1001, 1_000_000).unwrap_err(),
        LnurlError::AmountOutOfRange {
            min: 1001,
            max: 1_000_000,
            requested: 1000
        }
    );
}

#[test]
fn amount_above_maximum_is_rejected() {
    assert_eq!(
        amount_msat_in_range(2000, 1000, 1_999_999).unwrap_err(),
        LnurlError::AmountOutOfRange {
            min: 1000,
            max: 1_999_999,
            requested: 2_000_000
        }
    );
}

#[test]
fn overflowing_amount_is_out_of_range() {
    let r = amount_msat_in_range(u64::MAX, 1000, u64::MAX);
    assert_eq!(
        r.unwrap_err(),
        LnurlError::AmountOutOfRange {
            min: 1000,
            max: u64::MAX,
            requested: u64::MAX
        }
    );
}

#[test]
fn callback_url_carries_amount() {
    assert_eq!(
        callback_with_amount("https://example.com/cb", 1_000_000),
        "https://example.com/cb?amount=1000000"
    );
}

#[test]
fn decimal_rendering_is_exact() {
    assert_eq!(dec_string(0), "0");
    assert_eq!(dec_string(10), "10");
    assert_eq!(dec_string(u64::MAX), "18446744073709551615");
}

#[test]
fn hex_decode_encode_roundtrip() {
    let bytes = decode_hex(&b"00ff10Ab".to_vec()).unwrap();
    assert_eq!(bytes, vec![0x00, 0xff, 0x10, 0xab]);
    assert_eq!(encode_hex(&bytes), b"00ff10ab".to_vec());
}

#[test]
fn hex_decode_rejects_odd_or_bad_digits() {
    assert!(decode_hex(&b"abc".to_vec()).is_none());
    assert!(decode_hex(&b"zz".to_vec()).is_none());
}
