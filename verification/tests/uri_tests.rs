use nwc_pay::errors::{ParamName, UriError};
use nwc_pay::uri::parse_nwc_uri;

const HEX64_A: &str = "abcdabcdabcdabcdabcdabcdabcdabcdabcdabcdabcdabcdabcdabcdabcdabcd";
const HEX64_B: &str = "1111111111111111111111111111111111111111111111111111111111111111";

#[test]
fn accepts_full_uri() {
    let uri = format!(
        "nostrwalletconnect://{}?relay=wss://relay.example&secret={}&lud16=alice@example.com",
        HEX64_A, HEX64_B
    );
    let conn = parse_nwc_uri(&uri).unwrap();
    assert_eq!(conn.service_pubkey.len(), 32);
    assert_eq!(conn.service_pubkey[0], 0xab);
    assert_eq!(conn.service_pubkey[31], 0xcd);
    assert_eq!(conn.relay_url, "wss://relay.example");
    assert_eq!(conn.client_secret, vec![0x11u8; 32]);
    assert_eq!(conn.lud16.as_deref(), Some("alice@example.com"));
}

#[test]
fn accepts_uri_without_lud16() {
    let uri = format!(
        "nostrwalletconnect://{}?relay=wss://relay.example&secret={}",
        HEX64_A, HEX64_B
    );
    let conn = parse_nwc_uri(&uri).unwrap();
    assert!(conn.lud16.is_none());
}

#[test]
fn percent_decodes_relay() {
    let uri = format!(
        "nostrwalletconnect://{}?relay=wss%3A%2F%2Frelay.example%2Fpath&secret={}",
        HEX64_A, HEX64_B
    );
    let conn = parse_nwc_uri(&uri).unwrap();
    assert_eq!(conn.relay_url, "wss://relay.example/path");
}

#[test]
fn rejects_missing_relay() {
    let uri = format!("nostrwalletconnect://{}?secret={}", HEX64_A, HEX64_B);
    assert_eq!(
        parse_nwc_uri(&uri).unwrap_err(),
        UriError::MissingParameter {
            name: ParamName::Relay
        }
    );
}

#[test]
fn rejects_missing_secret() {
    let uri = format!("nostrwalletconnect://{}?relay=wss://relay.example", HEX64_A);
    assert_eq!(
        parse_nwc_uri(&uri).unwrap_err(),
        UriError::MissingParameter {
            name: ParamName::Secret
        }
    );
}

#[test]
fn rejects_uri_without_scheme_separator() {
    assert_eq!(
        parse_nwc_uri("not a uri at all").unwrap_err(),
        UriError::MalformedUri
    );
}

#[test]
fn rejects_empty_host() {
    let uri = format!("nwc://?relay=wss://r.example&secret={}", HEX64_B);
    assert_eq!(parse_nwc_uri(&uri).unwrap_err(), UriError::MalformedUri);
}

#[test]
fn rejects_short_host_key() {
    let uri = format!("nwc://abcd?relay=wss://r.example&secret={}", HEX64_B);
    assert_eq!(parse_nwc_uri(&uri).unwrap_err(), UriError::InvalidKeyEncoding);
}

#[test]
fn rejects_non_hex_secret() {
    let bad = "zzzzzzzzzzzzzzzzzzzzzzzzzzzzzzzzzzzzzzzzzzzzzzzzzzzzzzzzzzzzzzzz";
    let uri = format!("nwc://{}?relay=wss://r.example&secret={}", HEX64_A, bad);
    assert_eq!(parse_nwc_uri(&uri).unwrap_err(), UriError::InvalidKeyEncoding);
}

#[test]
fn first_parameter_occurrence_wins() {
    let uri = format!(
        "nwc://{}?relay=wss://first.example&relay=wss://second.example&secret={}",
        HEX64_A, HEX64_B
    );
    let conn = parse_nwc_uri(&uri).unwrap();
    assert_eq!(conn.relay_url, "wss://first.example");
}
