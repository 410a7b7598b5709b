use vstd::prelude::*;

use crate::address::{valid_address, LightningAddress};
use crate::crypto::{nip04_decrypt, nip04_plain, valid_xonly_pk, xonly_pubkey_of};
use crate::errors::{CryptoError, FailureReason, LnurlError, SessionError, UriError};
use crate::event::{
    build_signed_event, event_frame, event_frame_bytes, payload_bytes, req_frame, req_frame_bytes,
    WALLET_REQUEST_KIND, WALLET_RESPONSE_KIND,
};
use crate::hex::{encode_hex, hex_of};
use crate::lnurl::{amount_msat_in_range, callback_with_amount, dec_digits, dec_string, LnService};
use crate::relay::{fresh_subscription_id, parse_relay_frame, relay_frame_of, ParsedFrame};
use crate::response::{parse_wallet_response, wallet_response_of, WalletResponse};
use crate::text::{ascii_chars, ascii_string, str_eq};
use crate::uri::{parse_nwc_uri, parse_uri_spec, NwcConnection};
use vstd::string::StringSliceAdditionalSpecFns;

verus! {

/// How a finished payment attempt ended.
#[derive(Debug)]
pub enum PaymentOutcome {
    Succeeded { preimage: String },
    Failed { reason: FailureReason },
}

/// The states of the payment lifecycle: disconnected, connected
/// and idle, or one of the phases of a single outstanding attempt.
#[derive(Debug)]
pub enum SessionState {
    Disconnected,
    Idle,
    Resolving { address: LightningAddress, amount_sats: u64 },
    Requesting { address_text: String, amount_sats: u64, amount_msat: u64 },
    AwaitingResponse { address_text: String, amount_sats: u64, sub_id: String },
    Completed { address_text: String, amount_sats: u64, outcome: PaymentOutcome },
}

/// What the caller must do next to drive the attempt forward.
#[derive(Debug)]
pub enum PayAction {
    /// Fetch the LNURL-pay discovery document at this URL.
    FetchDiscovery { url: String },
    /// Fetch an invoice from the service callback at this URL.
    FetchInvoice { url: String },
    /// Send the subscription frame, then the event frame, then read frames.
    Publish { subscribe: Vec<u8>, publish: Vec<u8>, sub_id: String },
    /// Keep reading relay frames.
    Continue,
    /// The attempt reached a terminal outcome; close the transport and read
    /// the state.
    Done,
}

/// What came back from the LNURL-pay discovery fetch.
#[derive(Debug)]
pub enum DiscoveryOutcome {
    Body { service: LnService },
    FetchFailed,
    ParseFailed,
}

/// What came back from the service callback fetch: the `pr` field of its
/// body, if the fetch and the body had one.
#[derive(Debug)]
pub enum InvoiceOutcome {
    Body { pr: Option<String> },
    FetchFailed,
}

/// The payment session: the one mutable root. It owns the connection
/// descriptor and derived client key for its lifetime and runs at most one
/// payment attempt at a time.
#[derive(Debug)]
pub struct PaymentSession {
    pub conn: Option<NwcConnection>,
    pub client_pubkey: Vec<u8>,
    pub state: SessionState,
    pub history: Vec<String>,
}

impl PaymentSession {
    /// Session invariant: a connection is held exactly outside
    /// `Disconnected`, is well-formed, its secret derives the stored client
    /// key, and its service key is on the curve.
    pub open spec fn inv(self) -> bool {
        match self.conn {
            None => self.state is Disconnected,
            Some(c) => {
                &&& !(self.state is Disconnected)
                &&& c.wf()
                &&& xonly_pubkey_of(c.client_secret@) == Some(self.client_pubkey@)
                &&& valid_xonly_pk(c.service_pubkey@)
                &&& self.client_pubkey@.len() == 32
            },
        }
    }

    /// A fresh session: disconnected, with no history.
    pub fn new() -> (r: PaymentSession)
        ensures
            r.inv(),
            r.state is Disconnected,
            r.history@.len() == 0,
    {
        PaymentSession {
            conn: None,
            client_pubkey: Vec::new(),
            state: SessionState::Disconnected,
            history: Vec::new(),
        }
    }

    /// Parses the capability URI and derives the session keys.
    ///
    /// On success the session becomes idle over the parsed connection; on
    /// any failure it stays disconnected and reports which step failed:
    /// the parser error as it stands, an undeliverable secret as
    /// `InvalidSecretKey`, a service key off the curve as
    /// `InvalidKeyEncoding`.
    pub fn connect(&mut self, uri: &str) -> (r: Result<(), FailureReason>)
        requires
            old(self).inv(),
            old(self).state is Disconnected,
        ensures
            final(self).inv(),
            final(self).history@ == old(self).history@,
            match parse_uri_spec(uri.spec_bytes()) {
                Err(e) => r == Err::<(), FailureReason>(FailureReason::Uri(e)) && final(self).state is Disconnected
                    && final(self).conn is None,
                Ok(parts) => {
                    if xonly_pubkey_of(parts.secret) is None {
                        r == Err::<(), FailureReason>(
                            FailureReason::Crypto(CryptoError::InvalidSecretKey),
                        ) && final(self).state is Disconnected
                    } else if !valid_xonly_pk(parts.service_pubkey) {
                        r == Err::<(), FailureReason>(
                            FailureReason::Uri(UriError::InvalidKeyEncoding),
                        ) && final(self).state is Disconnected
                    } else {
                        &&& r is Ok
                        &&& final(self).state is Idle
                        &&& final(self).conn matches Some(c) && c@ == parts
                        &&& Some(final(self).client_pubkey@) == xonly_pubkey_of(parts.secret)
                    }
                },
            },
    {
        let conn = match parse_nwc_uri(uri) {
            Err(e) => {
                return Err(FailureReason::Uri(e));
            },
            Ok(c) => c,
        };
        let pubkey = match crate::crypto::derive_pubkey(&conn.client_secret) {
            None => {
                return Err(FailureReason::Crypto(CryptoError::InvalidSecretKey));
            },
            Some(p) => p,
        };
        if !crate::crypto::check_service_pubkey(&conn.service_pubkey) {
            return Err(FailureReason::Uri(UriError::InvalidKeyEncoding));
        }
        self.conn = Some(conn);
        self.client_pubkey = pubkey;
        self.state = SessionState::Idle;
        Ok(())
    }

    /// Starts a payment attempt for an address and an amount in sats.
    ///
    /// Only an idle, connected session may start one: a disconnected
    /// session answers `NotConnected` and one with an attempt outstanding —
    /// resolving, requesting, awaiting, or completed but unacknowledged —
    /// answers `AttemptInProgress`, both without any state change. An
    /// invalid address ends the attempt at once as `Completed`; otherwise
    /// the session starts resolving and hands back the discovery URL.
    pub fn begin_pay(&mut self, address: &str, amount_sats: u64) -> (r: Result<
        PayAction,
        SessionError,
    >)
        requires
            old(self).inv(),
        ensures
            final(self).inv(),
            final(self).history@ == old(self).history@,
            final(self).conn == old(self).conn,
            old(self).state is Disconnected ==> r == Err::<PayAction, SessionError>(
                SessionError::NotConnected,
            ) && final(self).state == old(self).state,
            !(old(self).state is Disconnected) && !(old(self).state is Idle) ==> r == Err::<
                PayAction,
                SessionError,
            >(SessionError::AttemptInProgress) && final(self).state == old(self).state,
            old(self).state is Idle ==> {
                if valid_address(address.spec_bytes()) {
                    &&& final(self).state matches SessionState::Resolving { address: a, amount_sats: s }
                        && s == amount_sats && a.wf()
                    &&& r matches Ok(PayAction::FetchDiscovery { url }) && url@ == "https://"@
                        + ascii_chars(crate::address::addr_domain(address.spec_bytes()))
                        + "/.well-known/lnurlp/"@ + ascii_chars(
                        crate::address::addr_local(address.spec_bytes()),
                    )
                } else {
                    &&& final(self).state matches SessionState::Completed {
                        outcome: PaymentOutcome::Failed {
                            reason: FailureReason::Address(
                                crate::errors::AddressError::InvalidLightningAddress,
                            ),
                        },
                        ..
                    }
                    &&& r == Ok::<PayAction, SessionError>(PayAction::Done)
                }
            },
    {
        match &self.state {
            SessionState::Disconnected => Err(SessionError::NotConnected),
            SessionState::Idle => {
                match LightningAddress::new(address) {
                    Err(_) => {
                        self.state = SessionState::Completed {
                            address_text: String::from_str(address),
                            amount_sats,
                            outcome: PaymentOutcome::Failed {
                                reason: FailureReason::Address(
                                    crate::errors::AddressError::InvalidLightningAddress,
                                ),
                            },
                        };
                        Ok(PayAction::Done)
                    },
                    Ok(a) => {
                        let url = a.lnurlp_url();
                        self.state = SessionState::Resolving { address: a, amount_sats };
                        Ok(PayAction::FetchDiscovery { url })
                    },
                }
            },
            _ => Err(SessionError::AttemptInProgress),
        }
    }

    /// Feeds the discovery result back into the session.
    ///
    /// A failed fetch or an unreadable body completes the attempt with the
    /// matching LNURL error. A readable service description checks the
    /// amount against the sendable bounds: out of range completes the
    /// attempt as `AmountOutOfRange` and asks for no further fetch; in
    /// range moves to requesting and hands back the callback URL carrying
    /// the amount in millisats.
    pub fn on_discovery(&mut self, outcome: DiscoveryOutcome) -> (r: PayAction)
        requires
            old(self).inv(),
            old(self).state is Resolving,
        ensures
            final(self).inv(),
            final(self).history@ == old(self).history@,
            final(self).conn == old(self).conn,
            match outcome {
                DiscoveryOutcome::FetchFailed => final(self).state matches SessionState::Completed {
                    outcome: PaymentOutcome::Failed {
                        reason: FailureReason::Lnurl(LnurlError::LnurlFetchError),
                    },
                    ..
                } && r is Done,
                DiscoveryOutcome::ParseFailed => final(self).state matches SessionState::Completed {
                    outcome: PaymentOutcome::Failed {
                        reason: FailureReason::Lnurl(LnurlError::LnurlParseError),
                    },
                    ..
                } && r is Done,
                DiscoveryOutcome::Body { service } => {
                    let sats = old(self).state->Resolving_amount_sats;
                    let msat = sats as int * 1000;
                    if service.min_sendable <= msat <= service.max_sendable {
                        &&& final(self).state matches SessionState::Requesting {
                            amount_sats,
                            amount_msat,
                            ..
                        } && amount_sats == sats && amount_msat == msat
                        &&& r matches PayAction::FetchInvoice { url } && url@ == service.callback@
                            + "?amount="@ + ascii_chars(dec_digits(msat as nat))
                    } else {
                        &&& final(self).state matches SessionState::Completed {
                            outcome: PaymentOutcome::Failed {
                                reason: FailureReason::Lnurl(
                                    LnurlError::AmountOutOfRange { min, max, requested },
                                ),
                            },
                            ..
                        } && min == service.min_sendable && max == service.max_sendable
                        &&& r is Done
                    }
                },
            },
    {
        let (address, amount_sats) = match &self.state {
            SessionState::Resolving { address, amount_sats } => (
                address.to_text(),
                *amount_sats,
            ),
            _ => {
                proof {
                    assert(false);
                }
                (String::new(), 0)
            },
        };
        match outcome {
            DiscoveryOutcome::FetchFailed => {
                self.state = SessionState::Completed {
                    address_text: address,
                    amount_sats,
                    outcome: PaymentOutcome::Failed {
                        reason: FailureReason::Lnurl(LnurlError::LnurlFetchError),
                    },
                };
                PayAction::Done
            },
            DiscoveryOutcome::ParseFailed => {
                self.state = SessionState::Completed {
                    address_text: address,
                    amount_sats,
                    outcome: PaymentOutcome::Failed {
                        reason: FailureReason::Lnurl(LnurlError::LnurlParseError),
                    },
                };
                PayAction::Done
            },
            DiscoveryOutcome::Body { service } => {
                match amount_msat_in_range(
                    amount_sats,
                    service.min_sendable,
                    service.max_sendable,
                ) {
                    Err(e) => {
                        self.state = SessionState::Completed {
                            address_text: address,
                            amount_sats,
                            outcome: PaymentOutcome::Failed { reason: FailureReason::Lnurl(e) },
                        };
                        PayAction::Done
                    },
                    Ok(msat) => {
                        let url = callback_with_amount(service.callback.as_str(), msat);
                        self.state = SessionState::Requesting {
                            address_text: address,
                            amount_sats,
                            amount_msat: msat,
                        };
                        PayAction::FetchInvoice { url }
                    },
                }
            },
        }
    }

    /// Feeds the invoice callback result back into the session.
    ///
    /// A failed fetch completes the attempt as `InvoiceFetchError`; a body
    /// without a `pr` field as `InvoiceFieldMissing`. With an invoice in
    /// hand the session seals and signs the request event for the given
    /// timestamp, opens a fresh subscription id, and hands back the two
    /// frames to send: the subscription first, then the event, so that the
    /// response stream is listening before the request is published.
    pub fn on_invoice(&mut self, outcome: InvoiceOutcome, created_at: u64) -> (r: PayAction)
        requires
            old(self).inv(),
            old(self).state is Requesting,
        ensures
            final(self).inv(),
            final(self).history@ == old(self).history@,
            final(self).conn == old(self).conn,
            match outcome {
                InvoiceOutcome::FetchFailed => final(self).state matches SessionState::Completed {
                    outcome: PaymentOutcome::Failed {
                        reason: FailureReason::Lnurl(LnurlError::InvoiceFetchError),
                    },
                    ..
                } && r is Done,
                InvoiceOutcome::Body { pr: None } => final(self).state matches SessionState::Completed {
                    outcome: PaymentOutcome::Failed {
                        reason: FailureReason::Lnurl(LnurlError::InvoiceFieldMissing),
                    },
                    ..
                } && r is Done,
                InvoiceOutcome::Body { pr: Some(invoice) } => {
                    &&& final(self).state matches SessionState::AwaitingResponse { sub_id, .. }
                        && (r matches PayAction::Publish { subscribe, publish, sub_id: s2 } && {
                        &&& s2@ == sub_id@
                        &&& subscribe@ == req_frame_bytes(
                            sub_id@,
                            WALLET_RESPONSE_KIND,
                            created_at,
                            final(self).client_pubkey@,
                        )
                        &&& exists|ev: crate::event::EventParts|
                            {
                                &&& #[trigger] event_frame_bytes(ev) == publish@
                                &&& ev.id == crate::crypto::event_id_of(
                                    ev.pubkey,
                                    ev.created_at,
                                    ev.kind,
                                    ev.service,
                                    ev.content,
                                )
                                &&& crate::crypto::schnorr_verifies(ev.pubkey, ev.id, ev.sig)
                                &&& ev.pubkey == final(self).client_pubkey@
                                &&& ev.created_at == created_at
                                &&& ev.kind == WALLET_REQUEST_KIND
                                &&& ev.service == final(self).conn->0.service_pubkey@
                                &&& nip04_plain(
                                    final(self).conn->0.client_secret@,
                                    ev.service,
                                    ev.content,
                                ) == Some(payload_bytes(vstd::utf8::encode_utf8(invoice@)))
                            }
                    })
                },
            },
    {
        let (address, amount_sats) = match &self.state {
            SessionState::Requesting { address_text, amount_sats, .. } => (
                String::from_str(address_text.as_str()),
                *amount_sats,
            ),
            _ => {
                proof {
                    assert(false);
                }
                (String::new(), 0)
            },
        };
        match outcome {
            InvoiceOutcome::FetchFailed => {
                self.state = SessionState::Completed {
                    address_text: address,
                    amount_sats,
                    outcome: PaymentOutcome::Failed {
                        reason: FailureReason::Lnurl(LnurlError::InvoiceFetchError),
                    },
                };
                PayAction::Done
            },
            InvoiceOutcome::Body { pr: None } => {
                self.state = SessionState::Completed {
                    address_text: address,
                    amount_sats,
                    outcome: PaymentOutcome::Failed {
                        reason: FailureReason::Lnurl(LnurlError::InvoiceFieldMissing),
                    },
                };
                PayAction::Done
            },
            InvoiceOutcome::Body { pr: Some(invoice) } => {
                let (secret, service) = match &self.conn {
                    Some(c) => (&c.client_secret, &c.service_pubkey),
                    None => {
                        proof {
                            assert(false);
                        }
                        (&self.client_pubkey, &self.client_pubkey)
                    },
                };
                let ev = build_signed_event(
                    secret,
                    &self.client_pubkey,
                    service,
                    invoice.as_str(),
                    created_at,
                );
                let sub_id = fresh_subscription_id();
                let subscribe = req_frame(
                    sub_id.as_str(),
                    WALLET_RESPONSE_KIND,
                    created_at,
                    &self.client_pubkey,
                );
                let publish = event_frame(&ev);
                proof {
                    assert(event_frame_bytes(ev@) == publish@);
                }
                let sub_id_2 = String::from_str(sub_id.as_str());
                self.state = SessionState::AwaitingResponse {
                    address_text: address,
                    amount_sats,
                    sub_id,
                };
                PayAction::Publish { subscribe, publish, sub_id: sub_id_2 }
            },
        }
    }

    /// Feeds one relay frame into the waiting session.
    ///
    /// Only a response event on the outstanding subscription, authored by
    /// the service key, of the response kind, and decrypting to a
    /// classified `pay_invoice` response settles the attempt: a preimage
    /// completes it as succeeded, a wallet error as failed. Every other
    /// frame — notices, acknowledgements, end of stored events, frames
    /// that do not parse, events that do not match or do not decrypt —
    /// leaves the state unchanged and keeps the stream running.
    pub fn on_frame(&mut self, frame_text: &str) -> (r: PayAction)
        requires
            old(self).inv(),
            old(self).state is AwaitingResponse,
        ensures
            final(self).inv(),
            final(self).history@ == old(self).history@,
            final(self).conn == old(self).conn,
            ({
                let secret = old(self).conn->0.client_secret@;
                let service = old(self).conn->0.service_pubkey@;
                let sub = old(self).state->AwaitingResponse_sub_id@;
                match relay_frame_of(frame_text@) {
                    ParsedFrame::Event { sub_id, pubkey_hex, kind, content } => {
                        if sub_id@ == sub && pubkey_hex@ == ascii_chars(hex_of(service)) && kind
                            == WALLET_RESPONSE_KIND {
                            match nip04_plain(secret, service, content@) {
                                None => r is Continue && final(self).state == old(self).state,
                                Some(plain) => match wallet_response_of(plain) {
                                    WalletResponse::Paid { preimage } => final(self).state matches
                                        SessionState::Completed {
                                        outcome: PaymentOutcome::Succeeded { preimage: p },
                                        ..
                                    } && p@ == preimage@ && r is Done,
                                    WalletResponse::Failed { code, message } => final(self).state matches
                                        SessionState::Completed {
                                        outcome: PaymentOutcome::Failed {
                                            reason: FailureReason::PaymentFailed {
                                                code: c,
                                                message: m,
                                            },
                                        },
                                        ..
                                    } && c@ == code@ && m@ == message@ && r is Done,
                                    WalletResponse::Unrecognized => r is Continue
                                        && final(self).state == old(self).state,
                                },
                            }
                        } else {
                            r is Continue && final(self).state == old(self).state
                        }
                    },
                    _ => r is Continue && final(self).state == old(self).state,
                }
            }),
    {
        let (sub, address, amount_sats) = match &self.state {
            SessionState::AwaitingResponse { sub_id, address_text, amount_sats } => (
                String::from_str(sub_id.as_str()),
                String::from_str(address_text.as_str()),
                *amount_sats,
            ),
            _ => {
                proof {
                    assert(false);
                }
                (String::new(), String::new(), 0)
            },
        };
        let (secret, service) = match &self.conn {
            Some(c) => (&c.client_secret, &c.service_pubkey),
            None => {
                proof {
                    assert(false);
                }
                (&self.client_pubkey, &self.client_pubkey)
            },
        };
        match parse_relay_frame(frame_text) {
            ParsedFrame::Event { sub_id, pubkey_hex, kind, content } => {
                let service_hex_b = encode_hex(service);
                proof {
                    crate::hex::lemma_hex_of_ascii(service@);
                }
                let service_hex = ascii_string(service_hex_b);
                if str_eq(sub_id.as_str(), sub.as_str()) && str_eq(
                    pubkey_hex.as_str(),
                    service_hex.as_str(),
                ) && kind == WALLET_RESPONSE_KIND {
                    match nip04_decrypt(secret, service, content.as_str()) {
                        None => PayAction::Continue,
                        Some(plain) => match parse_wallet_response(&plain) {
                            WalletResponse::Paid { preimage } => {
                                self.state = SessionState::Completed {
                                    address_text: address,
                                    amount_sats,
                                    outcome: PaymentOutcome::Succeeded { preimage },
                                };
                                PayAction::Done
                            },
                            WalletResponse::Failed { code, message } => {
                                self.state = SessionState::Completed {
                                    address_text: address,
                                    amount_sats,
                                    outcome: PaymentOutcome::Failed {
                                        reason: FailureReason::PaymentFailed { code, message },
                                    },
                                };
                                PayAction::Done
                            },
                            WalletResponse::Unrecognized => PayAction::Continue,
                        },
                    }
                } else {
                    PayAction::Continue
                }
            },
            _ => PayAction::Continue,
        }
    }

    /// Times the waiting attempt out: no classifying event arrived within
    /// the caller's window, so the attempt completes as `Timeout` and the
    /// transport is to be closed.
    pub fn on_timeout(&mut self) -> (r: PayAction)
        requires
            old(self).inv(),
            old(self).state is AwaitingResponse,
        ensures
            final(self).inv(),
            final(self).history@ == old(self).history@,
            final(self).conn == old(self).conn,
            final(self).state matches SessionState::Completed {
                outcome: PaymentOutcome::Failed { reason: FailureReason::Timeout },
                ..
            },
            final(self).state->Completed_amount_sats == old(self).state->AwaitingResponse_amount_sats,
            r is Done,
    {
        let (address, amount_sats) = match &self.state {
            SessionState::AwaitingResponse { address_text, amount_sats, .. } => (
                String::from_str(address_text.as_str()),
                *amount_sats,
            ),
            _ => {
                proof {
                    assert(false);
                }
                (String::new(), 0)
            },
        };
        self.state = SessionState::Completed {
            address_text: address,
            amount_sats,
            outcome: PaymentOutcome::Failed { reason: FailureReason::Timeout },
        };
        PayAction::Done
    }

    /// Ends the waiting attempt on a transport failure: the socket could
    /// not be opened, written, or read, so the attempt completes as a
    /// terminal transport failure carrying the caller's detail text.
    pub fn on_transport_error(&mut self, detail: &str) -> (r: PayAction)
        requires
            old(self).inv(),
            old(self).state is AwaitingResponse,
        ensures
            final(self).inv(),
            final(self).history@ == old(self).history@,
            final(self).conn == old(self).conn,
            final(self).state matches SessionState::Completed {
                outcome: PaymentOutcome::Failed { reason: FailureReason::Transport { detail: d } },
                ..
            } && d@ == detail@,
            final(self).state->Completed_amount_sats == old(self).state->AwaitingResponse_amount_sats,
            r is Done,
    {
        let (address, amount_sats) = match &self.state {
            SessionState::AwaitingResponse { address_text, amount_sats, .. } => (
                String::from_str(address_text.as_str()),
                *amount_sats,
            ),
            _ => {
                proof {
                    assert(false);
                }
                (String::new(), 0)
            },
        };
        self.state = SessionState::Completed {
            address_text: address,
            amount_sats,
            outcome: PaymentOutcome::Failed {
                reason: FailureReason::Transport { detail: String::from_str(detail) },
            },
        };
        PayAction::Done
    }

    /// The history line for a finished attempt, as the presentation shows
    /// it: address, amount in sats, and the caller's timestamp text.
    pub open spec fn history_record(addr: Seq<char>, amount_sats: u64, time: Seq<char>) -> Seq<
        char,
    > {
        addr + " | "@ + ascii_chars(dec_digits(amount_sats as nat)) + " sats | "@ + time
    }

    /// Acknowledges a completed attempt: appends its history record and
    /// returns the session to idle, keeping the connection. From any other
    /// state the call is rejected unchanged.
    pub fn acknowledge(&mut self, time_text: &str) -> (r: Result<(), SessionError>)
        requires
            old(self).inv(),
        ensures
            final(self).inv(),
            final(self).conn == old(self).conn,
            !(old(self).state is Completed) ==> r == Err::<(), SessionError>(
                SessionError::NotCompleted,
            ) && final(self).state == old(self).state && final(self).history@ == old(
                self,
            ).history@,
            old(self).state is Completed ==> {
                &&& r is Ok
                &&& final(self).state is Idle
                &&& final(self).history@.len() == old(self).history@.len() + 1
                &&& forall|i: int|
                    0 <= i < old(self).history@.len() ==> final(self).history@[i] == #[trigger] old(
                        self,
                    ).history@[i]
                &&& final(self).history@.last()@ == Self::history_record(
                    old(self).state->Completed_address_text@,
                    old(self).state->Completed_amount_sats,
                    time_text@,
                )
            },
    {
        let (address, amount_sats) = match &self.state {
            SessionState::Completed { address_text, amount_sats, .. } => (
                String::from_str(address_text.as_str()),
                *amount_sats,
            ),
            _ => {
                return Err(SessionError::NotCompleted);
            },
        };
        let mut record = address;
        record.append(" | ");
        let amount_text = dec_string(amount_sats);
        record.append(amount_text.as_str());
        record.append(" sats | ");
        record.append(time_text);
        self.history.push(record);
        self.state = SessionState::Idle;
        Ok(())
    }

    /// Logs out: discards the connection, the derived key, any outstanding
    /// attempt, and the history.
    pub fn logout(&mut self)
        ensures
            final(self).inv(),
            final(self).state is Disconnected,
            final(self).conn is None,
            final(self).history@.len() == 0,
    {
        self.conn = None;
        self.client_pubkey = Vec::new();
        self.state = SessionState::Disconnected;
        self.history = Vec::new();
    }
}

} // verus!
