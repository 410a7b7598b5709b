use nwc_pay::address::LightningAddress;
use nwc_pay::errors::AddressError;

#[test]
fn accepts_simple_address() {
    let a = LightningAddress::new("alice@example.com").unwrap();
    assert_eq!(a.local, "alice");
    assert_eq!(a.domain, "example.com");
    assert_eq!(a.to_text(), "alice@example.com");
}

#[test]
fn discovery_url_has_wellknown_path() {
    let a = LightningAddress::new("alice@example.com").unwrap();
    assert_eq!(
        a.lnurlp_url(),
        "https://example.com/.well-known/lnurlp/alice"
    );
}

#[test]
fn rejects_address_without_at() {
    assert_eq!(
        LightningAddress::new("alice.example.com").unwrap_err(),
        AddressError::InvalidLightningAddress
    );
}

#[test]
fn rejects_two_ats() {
    assert!(LightningAddress::new("alice@bob@example.com").is_err());
}

#[test]
fn rejects_empty_local_part() {
    assert!(LightningAddress::new("@example.com").is_err());
}

#[test]
fn rejects_domain_without_dot() {
    assert!(LightningAddress::new("alice@example").is_err());
}

#[test]
fn rejects_domain_dot_at_edge() {
    assert!(LightningAddress::new("alice@.example.com").is_err());
    assert!(LightningAddress::new("alice@example.com.").is_err());
}

#[test]
fn rejects_whitespace() {
    assert!(LightningAddress::new("alice smith@example.com").is_err());
}
