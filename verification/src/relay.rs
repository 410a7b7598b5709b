use nostr::message::RelayMessage as RM;
use vstd::prelude::*;

verus! {

/// A decoded relay frame, reduced to the plain values the session reads:
/// a response event with its subscription id, author key and ciphertext; a
/// publish acknowledgement; end of stored events; a notice; another
/// informational frame; or an unparseable one.
#[derive(Debug)]
pub enum ParsedFrame {
    Event { sub_id: String, pubkey_hex: String, kind: u16, content: String },
    Accepted { event_id_hex: String, accepted: bool, text: String },
    EndOfStoredEvents { sub_id: String },
    Notice { text: String },
    Empty,
    Invalid,
}

/// What the relay-message decoder makes of a frame.
pub uninterp spec fn relay_frame_of(s: Seq<char>) -> ParsedFrame;

/// Relies on `nostr::message::RelayMessage::from_json`: the NIP-01 decoding
/// of an inbound relay frame, deterministic in the text.
#[verifier::external_body]
pub(crate) fn parse_relay_frame(s: &str) -> (r: ParsedFrame)
    ensures
        r == relay_frame_of(s@),
{
    match RM::from_json(s) {
        Ok(RM::Event { subscription_id, event }) => ParsedFrame::Event { sub_id: subscription_id.as_str().to_owned(), pubkey_hex: event.pubkey.to_hex(), kind: event.kind.as_u16(), content: event.content.clone() },
        Ok(RM::Ok { event_id, status, message }) => ParsedFrame::Accepted { event_id_hex: event_id.to_hex(), accepted: status, text: message.into_owned() },
        Ok(RM::EndOfStoredEvents(sid)) => ParsedFrame::EndOfStoredEvents { sub_id: sid.as_str().to_owned() },
        Ok(RM::Notice(m)) => ParsedFrame::Notice { text: m.into_owned() },
        Ok(_) => ParsedFrame::Empty,
        Err(_) => ParsedFrame::Invalid,
    }
}

/// Relies on `uuid::Uuid::new_v4`: a fresh random identifier whose
/// hyphenated text form is 36 ASCII characters.
#[verifier::external_body]
pub(crate) fn fresh_subscription_id() -> (r: String)
    ensures
        r@.len() == 36,
        vstd::utf8::is_ascii_chars(r@),
{
    uuid::Uuid::new_v4().to_string()
}

} // verus!
