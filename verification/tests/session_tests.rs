use nostr::event::FinalizeEvent;
use nwc_pay::errors::{FailureReason, LnurlError, SessionError};
use nwc_pay::lnurl::LnService;
use nwc_pay::session::{
    DiscoveryOutcome, InvoiceOutcome, PayAction, PaymentOutcome, PaymentSession, SessionState,
};

const SECRET_HEX: &str = "1111111111111111111111111111111111111111111111111111111111111111";

fn service_keys() -> nostr::key::Keys {
    nostr::key::Keys::new(nostr::key::SecretKey::from_slice(&[0x22u8; 32]).unwrap())
}

fn connect_uri() -> String {
    format!(
        "nostrwalletconnect://{}?relay=wss://relay.example&secret={}&lud16=alice@example.com",
        service_keys().public_key().to_hex(),
        SECRET_HEX
    )
}

fn connected_session() -> PaymentSession {
    let mut s = PaymentSession::new();
    s.connect(&connect_uri()).unwrap();
    s
}

fn discovery() -> DiscoveryOutcome {
    DiscoveryOutcome::Body {
        service: LnService {
            min_sendable: 1000,
            max_sendable: 1_000_000,
            comment_allowed: None,
            tag: "payRequest".to_string(),
            metadata: "[]".to_string(),
            callback: "https://example.com/cb".to_string(),
            payer_data: None,
            disposable: None,
            allows_nostr: None,
            nostr_pubkey: None,
        },
    }
}

/// Drives a fresh session to `AwaitingResponse`, returning the frames.
fn session_awaiting() -> (PaymentSession, Vec<u8>, Vec<u8>, String) {
    let mut s = connected_session();
    match s.begin_pay("alice@example.com", 1000).unwrap() {
        PayAction::FetchDiscovery { url } => {
            assert_eq!(url, "https://example.com/.well-known/lnurlp/alice");
        }
        _ => panic!("expected a discovery fetch"),
    }
    match s.on_discovery(discovery()) {
        PayAction::FetchInvoice { url } => {
            assert_eq!(url, "https://example.com/cb?amount=1000000");
        }
        _ => panic!("expected an invoice fetch"),
    }
    match s.on_invoice(
        InvoiceOutcome::Body {
            pr: Some("lnbc1example".to_string()),
        },
        1_700_000_000,
    ) {
        PayAction::Publish {
            subscribe,
            publish,
            sub_id,
        } => (s, subscribe, publish, sub_id),
        _ => panic!("expected frames to publish"),
    }
}

fn response_frame(sub_id: &str, session: &PaymentSession, preimage_json: &str) -> String {
    let service = service_keys();
    let client_pk = nostr::key::PublicKey::from_slice(&session.client_pubkey).unwrap();
    let content =
        nostr::nips::nip04::encrypt(service.secret_key(), &client_pk, preimage_json).unwrap();
    let event = nostr::event::EventBuilder::new(nostr::event::Kind::from_u16(23195), content)
        .tag(nostr::event::Tag::public_key(client_pk))
        .finalize(&service)
        .unwrap();
    nostr::message::RelayMessage::event(nostr::message::SubscriptionId::new(sub_id), event)
        .as_json()
}

#[test]
fn connect_rejects_bad_uri() {
    let mut s = PaymentSession::new();
    let r = s.connect("nonsense");
    assert!(matches!(r, Err(FailureReason::Uri(_))));
    assert!(matches!(s.state, SessionState::Disconnected));
}

#[test]
fn connect_rejects_secret_that_is_no_scalar() {
    let zero = "0000000000000000000000000000000000000000000000000000000000000000";
    let uri = format!(
        "nostrwalletconnect://{}?relay=wss://relay.example&secret={}",
        service_keys().public_key().to_hex(),
        zero
    );
    let mut s = PaymentSession::new();
    assert!(matches!(s.connect(&uri), Err(FailureReason::Crypto(_))));
}

#[test]
fn pay_before_connect_is_rejected() {
    let mut s = PaymentSession::new();
    assert_eq!(
        s.begin_pay("alice@example.com", 1).unwrap_err(),
        SessionError::NotConnected
    );
}

#[test]
fn second_pay_while_awaiting_is_rejected() {
    let (mut s, _, _, _) = session_awaiting();
    assert_eq!(
        s.begin_pay("bob@example.com", 5).unwrap_err(),
        SessionError::AttemptInProgress
    );
    assert!(matches!(s.state, SessionState::AwaitingResponse { .. }));
}

#[test]
fn acknowledge_outside_completed_is_rejected() {
    let mut s = connected_session();
    assert_eq!(
        s.acknowledge("12:00 01-01-2024").unwrap_err(),
        SessionError::NotCompleted
    );
}

#[test]
fn amount_at_minimum_is_accepted() {
    let mut s = connected_session();
    s.begin_pay("alice@example.com", 1).unwrap();
    let action = s.on_discovery(discovery());
    assert!(matches!(action, PayAction::FetchInvoice { .. }));
}

#[test]
fn amount_below_minimum_completes_without_callback_fetch() {
    let mut s = connected_session();
    s.begin_pay("alice@example.com", 1).unwrap();
    let mut d = discovery();
    match &mut d {
        DiscoveryOutcome::Body { service } => service.min_sendable = 2000,
        _ => unreachable!(),
    }
    let action = s.on_discovery(d);
    assert!(matches!(action, PayAction::Done));
    match &s.state {
        SessionState::Completed {
            outcome:
                PaymentOutcome::Failed {
                    reason: FailureReason::Lnurl(LnurlError::AmountOutOfRange { min, max, requested }),
                },
            ..
        } => {
            assert_eq!((*min, *max, *requested), (2000, 1_000_000, 1000));
        }
        other => panic!("unexpected state: {:?}", std::mem::discriminant(other)),
    }
}

#[test]
fn unreadable_discovery_body_completes_the_attempt() {
    let mut s = connected_session();
    s.begin_pay("alice@example.com", 1000).unwrap();
    let action = s.on_discovery(DiscoveryOutcome::ParseFailed);
    assert!(matches!(action, PayAction::Done));
    assert!(matches!(
        s.state,
        SessionState::Completed {
            outcome: PaymentOutcome::Failed {
                reason: FailureReason::Lnurl(LnurlError::LnurlParseError)
            },
            ..
        }
    ));
}

#[test]
fn pay_from_unacknowledged_completion_is_rejected() {
    let (mut s, _, _, _) = session_awaiting();
    s.on_timeout();
    assert_eq!(
        s.begin_pay("bob@example.com", 5).unwrap_err(),
        SessionError::AttemptInProgress
    );
}

#[test]
fn timeout_completes_the_attempt() {
    let (mut s, _, _, _) = session_awaiting();
    assert!(matches!(s.on_timeout(), PayAction::Done));
    assert!(matches!(
        s.state,
        SessionState::Completed {
            outcome: PaymentOutcome::Failed {
                reason: FailureReason::Timeout
            },
            ..
        }
    ));
}

#[test]
fn informational_frames_keep_the_stream_running() {
    let (mut s, _, _, sub_id) = session_awaiting();
    let notice = nostr::message::RelayMessage::notice("busy").as_json();
    assert!(matches!(s.on_frame(&notice), PayAction::Continue));
    let eose =
        nostr::message::RelayMessage::eose(nostr::message::SubscriptionId::new(&sub_id)).as_json();
    assert!(matches!(s.on_frame(&eose), PayAction::Continue));
    assert!(matches!(s.on_frame("not json"), PayAction::Continue));
    assert!(matches!(s.state, SessionState::AwaitingResponse { .. }));
}

#[test]
fn mismatched_subscription_is_ignored() {
    let (mut s, _, _, _) = session_awaiting();
    let frame = response_frame(
        "another-subscription",
        &s,
        "{\"result_type\":\"pay_invoice\",\"result\":{\"preimage\":\"aa\"}}",
    );
    assert!(matches!(s.on_frame(&frame), PayAction::Continue));
}

#[test]
fn matching_response_with_preimage_succeeds() {
    let (mut s, subscribe, publish, sub_id) = session_awaiting();
    assert!(subscribe.starts_with(b"[\"REQ\","));
    assert!(publish.starts_with(b"[\"EVENT\","));
    let frame = response_frame(
        &sub_id,
        &s,
        "{\"result_type\":\"pay_invoice\",\"result\":{\"preimage\":\"aa\"}}",
    );
    assert!(matches!(s.on_frame(&frame), PayAction::Done));
    match &s.state {
        SessionState::Completed {
            outcome: PaymentOutcome::Succeeded { preimage },
            ..
        } => assert_eq!(preimage, "aa"),
        _ => panic!("expected a settled payment"),
    }
}

#[test]
fn wallet_error_response_fails_the_attempt() {
    let (mut s, _, _, sub_id) = session_awaiting();
    let frame = response_frame(
        &sub_id,
        &s,
        "{\"result_type\":\"pay_invoice\",\"error\":{\"code\":\"INSUFFICIENT_BALANCE\",\"message\":\"no funds\"}}",
    );
    assert!(matches!(s.on_frame(&frame), PayAction::Done));
    match &s.state {
        SessionState::Completed {
            outcome:
                PaymentOutcome::Failed {
                    reason: FailureReason::PaymentFailed { message, .. },
                },
            ..
        } => assert_eq!(message, "no funds"),
        _ => panic!("expected a failed payment"),
    }
}

#[test]
fn acknowledge_appends_history_and_returns_to_idle() {
    let (mut s, _, _, _) = session_awaiting();
    s.on_timeout();
    s.acknowledge("12:00 01-01-2024").unwrap();
    assert!(matches!(s.state, SessionState::Idle));
    assert_eq!(s.history.len(), 1);
    assert_eq!(s.history[0], "alice@example.com | 1000 sats | 12:00 01-01-2024");
}

#[test]
fn invoice_fetch_failure_completes_the_attempt() {
    let mut s = connected_session();
    s.begin_pay("alice@example.com", 1000).unwrap();
    s.on_discovery(discovery());
    let action = s.on_invoice(InvoiceOutcome::FetchFailed, 1_700_000_000);
    assert!(matches!(action, PayAction::Done));
    assert!(matches!(
        s.state,
        SessionState::Completed {
            outcome: PaymentOutcome::Failed {
                reason: FailureReason::Lnurl(LnurlError::InvoiceFetchError)
            },
            ..
        }
    ));
}

#[test]
fn missing_pr_field_completes_the_attempt() {
    let mut s = connected_session();
    s.begin_pay("alice@example.com", 1000).unwrap();
    s.on_discovery(discovery());
    let action = s.on_invoice(InvoiceOutcome::Body { pr: None }, 1_700_000_000);
    assert!(matches!(action, PayAction::Done));
    assert!(matches!(
        s.state,
        SessionState::Completed {
            outcome: PaymentOutcome::Failed {
                reason: FailureReason::Lnurl(LnurlError::InvoiceFieldMissing)
            },
            ..
        }
    ));
}

#[test]
fn invalid_address_completes_the_attempt() {
    let mut s = connected_session();
    let action = s.begin_pay("not-an-address", 1000).unwrap();
    assert!(matches!(action, PayAction::Done));
    assert!(matches!(
        s.state,
        SessionState::Completed {
            outcome: PaymentOutcome::Failed {
                reason: FailureReason::Address(_)
            },
            ..
        }
    ));
}

#[test]
fn transport_failure_completes_the_attempt() {
    let (mut s, _, _, _) = session_awaiting();
    assert!(matches!(s.on_transport_error("socket closed"), PayAction::Done));
    match &s.state {
        SessionState::Completed {
            outcome:
                PaymentOutcome::Failed {
                    reason: FailureReason::Transport { detail },
                },
            ..
        } => assert_eq!(detail, "socket closed"),
        _ => panic!("expected a transport failure"),
    }
}

#[test]
fn logout_discards_everything() {
    let (mut s, _, _, _) = session_awaiting();
    s.logout();
    assert!(matches!(s.state, SessionState::Disconnected));
    assert!(s.conn.is_none());
    assert!(s.history.is_empty());
}
