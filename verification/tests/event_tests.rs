use nwc_pay::crypto::nip04_roundtrip;
use nwc_pay::event::{build_payload, build_signed_event, event_frame, req_frame};

fn client_secret() -> Vec<u8> {
    vec![0x11u8; 32]
}

fn client_pubkey() -> Vec<u8> {
    let keys = nostr::key::Keys::new(nostr::key::SecretKey::from_slice(&client_secret()).unwrap());
    keys.public_key().to_bytes().to_vec()
}

fn service_keys() -> nostr::key::Keys {
    nostr::key::Keys::new(nostr::key::SecretKey::from_slice(&[0x22u8; 32]).unwrap())
}

#[test]
fn payload_is_exact_json() {
    assert_eq!(
        build_payload("lnbc1example"),
        b"{\"method\":\"pay_invoice\",\"params\":{\"invoice\":\"lnbc1example\"}}".to_vec()
    );
}

#[test]
fn payload_escapes_like_the_ecosystem() {
    let tricky = "a\"b\\c\nd\u{1}";
    let mine = build_payload(tricky);
    let reference = format!(
        "{{\"method\":\"pay_invoice\",\"params\":{{\"invoice\":{}}}}}",
        serde_json::to_string(tricky).unwrap()
    );
    assert_eq!(String::from_utf8(mine).unwrap(), reference);
}

#[test]
fn signed_event_verifies_under_nostr() {
    let secret = client_secret();
    let client_pub = client_pubkey();
    let service_pk = service_keys().public_key().to_bytes().to_vec();
    let ev = build_signed_event(&secret, &client_pub, &service_pk, "lnbc1example", 1_700_000_000);
    let frame = event_frame(&ev);
    let value: serde_json::Value = serde_json::from_slice(&frame).unwrap();
    assert_eq!(value[0].as_str(), Some("EVENT"));
    let parsed = nostr::event::Event::from_json(value[1].to_string()).unwrap();
    parsed.verify().expect("event id and signature must verify");
    assert_eq!(parsed.kind.as_u16(), 23194);
    assert_eq!(parsed.created_at.as_secs(), 1_700_000_000);
}

#[test]
fn event_content_decrypts_to_the_payload() {
    let secret = client_secret();
    let client_pub = client_pubkey();
    let service = service_keys();
    let service_pk = service.public_key().to_bytes().to_vec();
    let ev = build_signed_event(&secret, &client_pub, &service_pk, "lnbc1example", 1_700_000_000);
    let client_pk_parsed = nostr::key::PublicKey::from_slice(&client_pub).unwrap();
    let plain = nostr::nips::nip04::decrypt_to_bytes(
        service.secret_key(),
        &client_pk_parsed,
        &ev.content,
    )
    .unwrap();
    assert_eq!(plain, build_payload("lnbc1example"));
}

#[test]
fn req_frame_is_exact() {
    let client_pub = vec![0xabu8; 32];
    let frame = req_frame("sub-1", 23195, 1_700_000_000, &client_pub);
    let value: serde_json::Value = serde_json::from_slice(&frame).unwrap();
    assert_eq!(value[0].as_str(), Some("REQ"));
    assert_eq!(value[1].as_str(), Some("sub-1"));
    assert_eq!(value[2]["kinds"][0].as_u64(), Some(23195));
    assert_eq!(value[2]["since"].as_u64(), Some(1_700_000_000));
    assert_eq!(
        value[2]["#p"][0].as_str(),
        Some("abababababababababababababababababababababababababababababababab")
    );
}

#[test]
fn typed_request_serializes_like_the_payload() {
    let req = nwc_pay::event::PayInvoiceRequest::new("lnbc1example".to_string());
    assert_eq!(req.method, "pay_invoice");
    assert_eq!(req.serialize(), build_payload("lnbc1example"));
    let value: serde_json::Value = serde_json::from_slice(&req.serialize()).unwrap();
    assert_eq!(value["method"].as_str(), Some("pay_invoice"));
    assert_eq!(value["params"]["invoice"].as_str(), Some("lnbc1example"));
}

#[test]
fn nip04_seal_open_recovers_plaintext() {
    let secret = client_secret();
    let service_pk = service_keys().public_key().to_bytes().to_vec();
    let plain = b"Saturn, bringer of old age".to_vec();
    assert_eq!(nip04_roundtrip(&secret, &service_pk, &plain), Some(plain));
}

#[test]
fn event_ids_agree_with_nostr() {
    let secret = client_secret();
    let client_pub = client_pubkey();
    let service_pk = service_keys().public_key().to_bytes().to_vec();
    let ev = build_signed_event(&secret, &client_pub, &service_pk, "lnbc1example", 1_700_000_000);
    let pk = nostr::key::PublicKey::from_slice(&client_pub).unwrap();
    let svc = nostr::key::PublicKey::from_slice(&service_pk).unwrap();
    let tags =
        nostr::event::Tags::from_list(vec![nostr::event::Tag::public_key(svc)]);
    let reference = nostr::event::EventId::compute(
        &pk,
        &nostr::types::Timestamp::from_secs(1_700_000_000),
        &nostr::event::Kind::from_u16(23194),
        &tags,
        &ev.content,
    );
    assert_eq!(ev.id, reference.to_bytes().to_vec());
}
