use vstd::prelude::*;

use crate::crypto::{
    compute_event_id, event_id_of, nip04_encrypt, nip04_plain, schnorr_sign, schnorr_verifies,
    valid_xonly_pk, xonly_pubkey_of,
};
use crate::hex::{hex_digit_of, hex_of};
use crate::hex::encode_hex;
use crate::lnurl::{dec_digits, push_dec};
use vstd::string::StringSliceAdditionalSpecFns;

verus! {

/// JSON string escaping of one byte, as the serializers of the ecosystem
/// write it: quote and backslash escaped, control bytes as `\b`, `\t`,
/// `\n`, `\f`, `\r` or `\u00` with two lowercase hex digits; everything
/// else stands for itself, so UTF-8 passes through unchanged.
pub open spec fn json_escape_byte(b: u8) -> Seq<u8> {
    if b == ('"' as u8) {
        seq![('\\' as u8), ('"' as u8)]
    } else if b == ('\\' as u8) {
        seq![('\\' as u8), ('\\' as u8)]
    } else if b == 8 {
        seq![('\\' as u8), ('b' as u8)]
    } else if b == 9 {
        seq![('\\' as u8), ('t' as u8)]
    } else if b == 10 {
        seq![('\\' as u8), ('n' as u8)]
    } else if b == 12 {
        seq![('\\' as u8), ('f' as u8)]
    } else if b == 13 {
        seq![('\\' as u8), ('r' as u8)]
    } else if b < 32 {
        seq![('\\' as u8), ('u' as u8), ('0' as u8), ('0' as u8), hex_digit_of(b / 16), hex_digit_of(b % 16)]
    } else {
        seq![b]
    }
}

/// JSON string escaping of a byte sequence.
pub open spec fn json_escape(s: Seq<u8>) -> Seq<u8>
    decreases s.len(),
{
    if s.len() == 0 {
        Seq::empty()
    } else {
        json_escape_byte(s[0]) + json_escape(s.drop_first())
    }
}

/// Escaping distributes over extending the input by one byte.
pub proof fn lemma_json_escape_snoc(s: Seq<u8>, b: u8)
    ensures
        json_escape(s.push(b)) == json_escape(s) + json_escape_byte(b),
    decreases s.len(),
{
    if s.len() == 0 {
        let p = s.push(b);
        assert(p.drop_first() =~= Seq::<u8>::empty());
        assert(p[0] == b);
        assert(json_escape(p) == json_escape_byte(b) + json_escape(p.drop_first()));
        assert(json_escape(p.drop_first()) == Seq::<u8>::empty());
        assert(json_escape(s) == Seq::<u8>::empty());
        assert(json_escape(s.push(b)) =~= json_escape(s) + json_escape_byte(b));
    } else {
        lemma_json_escape_snoc(s.drop_first(), b);
        assert(s.push(b).drop_first() =~= s.drop_first().push(b));
        assert(s.push(b)[0] == s[0]);
        assert(json_escape(s.push(b)) =~= json_escape(s) + json_escape_byte(b));
    }
}

/// Appends the JSON escaping of `src` to `out`.
pub fn push_json_escaped(src: &Vec<u8>, out: &mut Vec<u8>)
    ensures
        final(out)@ == old(out)@ + json_escape(src@),
{
    let mut i: usize = 0;
    assert(src@.take(0) =~= Seq::<u8>::empty());
    assert(out@ =~= out@ + json_escape(src@.take(0)));
    while i < src.len()
        invariant
            i <= src@.len(),
            out@ == old(out)@ + json_escape(src@.take(i as int)),
        decreases src@.len() - i,
    {
        let b = src[i];
        if b == ('"' as u8) {
            out.push('\\' as u8);
            out.push('"' as u8);
        } else if b == ('\\' as u8) {
            out.push('\\' as u8);
            out.push('\\' as u8);
        } else if b == 8 {
            out.push('\\' as u8);
            out.push('b' as u8);
        } else if b == 9 {
            out.push('\\' as u8);
            out.push('t' as u8);
        } else if b == 10 {
            out.push('\\' as u8);
            out.push('n' as u8);
        } else if b == 12 {
            out.push('\\' as u8);
            out.push('f' as u8);
        } else if b == 13 {
            out.push('\\' as u8);
            out.push('r' as u8);
        } else if b < 32 {
            out.push('\\' as u8);
            out.push('u' as u8);
            out.push('0' as u8);
            out.push('0' as u8);
            let hi = b / 16;
            let lo = b % 16;
            out.push(if hi < 10 { hi + ('0' as u8) } else { hi - 10 + ('a' as u8) });
            out.push(if lo < 10 { lo + ('0' as u8) } else { lo - 10 + ('a' as u8) });
        } else {
            out.push(b);
        }
        proof {
            lemma_json_escape_snoc(src@.take(i as int), src@[i as int]);
            assert(src@.take(i as int).push(src@[i as int]) =~= src@.take(i as int + 1));
            assert(out@ =~= old(out)@ + json_escape(src@.take(i as int + 1)));
        }
        i = i + 1;
    }
    assert(src@.take(src@.len() as int) =~= src@);
}

/// Appends the UTF-8 bytes of a string slice.
pub fn push_str_bytes(s: &str, out: &mut Vec<u8>)
    ensures
        final(out)@ == old(out)@ + s.spec_bytes(),
{
    let mut b = s.as_bytes_vec();
    out.append(&mut b);
}

/// The NIP-47 request payload carrying an invoice:
/// `{"method":"pay_invoice","params":{"invoice":"…"}}` with the invoice
/// JSON-escaped.
pub open spec fn payload_bytes(invoice: Seq<u8>) -> Seq<u8> {
    "{\"method\":\"pay_invoice\",\"params\":{\"invoice\":\"".spec_bytes() + json_escape(invoice)
        + "\"}}".spec_bytes()
}

/// Serializes the `pay_invoice` request payload for an invoice.
pub fn build_payload(invoice: &str) -> (r: Vec<u8>)
    ensures
        r@ == payload_bytes(invoice.spec_bytes()),
{
    let mut out: Vec<u8> = Vec::new();
    push_str_bytes("{\"method\":\"pay_invoice\",\"params\":{\"invoice\":\"", &mut out);
    let inv = invoice.as_bytes_vec();
    push_json_escaped(&inv, &mut out);
    push_str_bytes("\"}}", &mut out);
    assert(out@ =~= payload_bytes(invoice.spec_bytes()));
    out
}

/// The parameters of a `pay_invoice` request.
#[derive(Debug)]
pub struct Params {
    pub invoice: String,
}

/// The typed form of the wallet-request payload before encryption.
#[derive(Debug)]
pub struct PayInvoiceRequest {
    pub method: String,
    pub params: Params,
}

impl PayInvoiceRequest {
    /// A `pay_invoice` request carrying the invoice.
    pub fn new(invoice: String) -> (r: PayInvoiceRequest)
        ensures
            r.method@ == "pay_invoice"@,
            r.params.invoice == invoice,
    {
        PayInvoiceRequest {
            method: String::from_str("pay_invoice"),
            params: Params { invoice },
        }
    }

    /// The canonical serialization of the request.
    pub fn serialize(&self) -> (r: Vec<u8>)
        requires
            self.method@ == "pay_invoice"@,
        ensures
            r@ == payload_bytes(vstd::utf8::encode_utf8(self.params.invoice@)),
    {
        build_payload(self.params.invoice.as_str())
    }
}

/// The event kind of a wallet-control request.
pub const WALLET_REQUEST_KIND: u16 = 23194;

/// The event kind of a wallet-control response.
pub const WALLET_RESPONSE_KIND: u16 = 23195;

/// The fields of a signed request event, as mathematical values.
#[verifier::ext_equal]
pub struct EventParts {
    pub id: Seq<u8>,
    pub pubkey: Seq<u8>,
    pub created_at: u64,
    pub kind: u16,
    pub service: Seq<u8>,
    pub content: Seq<char>,
    pub sig: Seq<u8>,
}

/// A signed wallet-request event: identifier, author key, timestamp, kind,
/// the service key its one `p` tag addresses, the encrypted payload, and
/// the signature.
#[derive(Debug)]
pub struct SignedRequestEvent {
    pub id: Vec<u8>,
    pub pubkey: Vec<u8>,
    pub created_at: u64,
    pub kind: u16,
    pub service_pubkey: Vec<u8>,
    pub content: String,
    pub sig: Vec<u8>,
}

impl View for SignedRequestEvent {
    type V = EventParts;

    open spec fn view(&self) -> EventParts {
        EventParts {
            id: self.id@,
            pubkey: self.pubkey@,
            created_at: self.created_at,
            kind: self.kind,
            service: self.service_pubkey@,
            content: self.content@,
            sig: self.sig@,
        }
    }
}

impl SignedRequestEvent {
    /// The event is internally consistent: its identifier is the canonical
    /// hash of its fields, and its signature verifies for its author key
    /// over the identifier.
    pub open spec fn wf(self) -> bool {
        &&& self.id@ == event_id_of(
            self.pubkey@,
            self.created_at,
            self.kind,
            self.service_pubkey@,
            self.content@,
        )
        &&& schnorr_verifies(self.pubkey@, self.id@, self.sig@)
        &&& self.id@.len() == 32
        &&& self.pubkey@.len() == 32
        &&& self.service_pubkey@.len() == 32
        &&& self.sig@.len() == 64
        &&& vstd::utf8::is_ascii_chars(self.content@)
    }
}

/// Law: the event identifier depends on the five identifying fields alone —
/// two events agreeing on author key, timestamp, kind, addressed service
/// and content have the same identifier; and a well-formed event's
/// signature verifies for its author key over that identifier.
pub proof fn lemma_event_id_deterministic(a: SignedRequestEvent, b: SignedRequestEvent)
    requires
        a.wf(),
        b.wf(),
        a.pubkey@ == b.pubkey@,
        a.created_at == b.created_at,
        a.kind == b.kind,
        a.service_pubkey@ == b.service_pubkey@,
        a.content@ == b.content@,
    ensures
        a.id@ == b.id@,
        schnorr_verifies(a.pubkey@, a.id@, a.sig@),
        schnorr_verifies(b.pubkey@, b.id@, b.sig@),
{
}

/// The JSON serialization of a signed request event, fields in the order
/// the ecosystem writes them, keys hex-encoded and the content escaped.
pub open spec fn event_json_bytes(p: EventParts) -> Seq<u8> {
    "{\"id\":\"".spec_bytes() + hex_of(p.id) + "\",\"pubkey\":\"".spec_bytes() + hex_of(p.pubkey)
        + "\",\"created_at\":".spec_bytes() + dec_digits(p.created_at as nat)
        + ",\"kind\":".spec_bytes() + dec_digits(p.kind as nat)
        + ",\"tags\":[[\"p\",\"".spec_bytes() + hex_of(p.service)
        + "\"]],\"content\":\"".spec_bytes() + json_escape(vstd::utf8::encode_utf8(p.content))
        + "\",\"sig\":\"".spec_bytes() + hex_of(p.sig) + "\"}".spec_bytes()
}

/// The relay frame publishing an event: `["EVENT", …]`.
pub open spec fn event_frame_bytes(p: EventParts) -> Seq<u8> {
    "[\"EVENT\",".spec_bytes() + event_json_bytes(p) + "]".spec_bytes()
}

/// The relay frame subscribing to wallet responses for a client key:
/// `["REQ", sub_id, {"kinds":[kind],"since":ts,"#p":[client]}]`.
pub open spec fn req_frame_bytes(sub_id: Seq<char>, kind: u16, since: u64, client: Seq<u8>) -> Seq<
    u8,
> {
    "[\"REQ\",\"".spec_bytes() + json_escape(vstd::utf8::encode_utf8(sub_id))
        + "\",{\"kinds\":[".spec_bytes() + dec_digits(kind as nat) + "],\"since\":".spec_bytes()
        + dec_digits(since as nat) + ",\"#p\":[\"".spec_bytes() + hex_of(client)
        + "\"]}]".spec_bytes()
}

/// Serializes a signed request event as an `EVENT` frame.
#[verifier::rlimit(60)]
pub fn event_frame(ev: &SignedRequestEvent) -> (r: Vec<u8>)
    ensures
        r@ == event_frame_bytes(ev@),
{
    let mut out: Vec<u8> = Vec::new();
    push_str_bytes("[\"EVENT\",", &mut out);
    push_str_bytes("{\"id\":\"", &mut out);
    let mut idh = encode_hex(&ev.id);
    out.append(&mut idh);
    push_str_bytes("\",\"pubkey\":\"", &mut out);
    let mut pkh = encode_hex(&ev.pubkey);
    out.append(&mut pkh);
    push_str_bytes("\",\"created_at\":", &mut out);
    push_dec(ev.created_at, &mut out);
    push_str_bytes(",\"kind\":", &mut out);
    push_dec(ev.kind as u64, &mut out);
    push_str_bytes(",\"tags\":[[\"p\",\"", &mut out);
    let mut svch = encode_hex(&ev.service_pubkey);
    out.append(&mut svch);
    push_str_bytes("\"]],\"content\":\"", &mut out);
    let content_b = ev.content.as_str().as_bytes_vec();
    push_json_escaped(&content_b, &mut out);
    push_str_bytes("\",\"sig\":\"", &mut out);
    let mut sigh = encode_hex(&ev.sig);
    out.append(&mut sigh);
    push_str_bytes("\"}", &mut out);
    push_str_bytes("]", &mut out);
    assert(out@ =~= event_frame_bytes(ev@));
    out
}

/// Serializes the subscription frame for wallet responses.
pub fn req_frame(sub_id: &str, kind: u16, since: u64, client: &Vec<u8>) -> (r: Vec<u8>)
    ensures
        r@ == req_frame_bytes(sub_id@, kind, since, client@),
{
    let mut out: Vec<u8> = Vec::new();
    push_str_bytes("[\"REQ\",\"", &mut out);
    let sub_b = sub_id.as_bytes_vec();
    push_json_escaped(&sub_b, &mut out);
    push_str_bytes("\",{\"kinds\":[", &mut out);
    push_dec(kind as u64, &mut out);
    push_str_bytes("],\"since\":", &mut out);
    push_dec(since, &mut out);
    push_str_bytes(",\"#p\":[\"", &mut out);
    let mut ch = encode_hex(client);
    out.append(&mut ch);
    push_str_bytes("\"]}]", &mut out);
    assert(out@ =~= req_frame_bytes(sub_id@, kind, since, client@));
    out
}

/// Builds, encrypts and signs the wallet-request event for an invoice.
///
/// The payload is the `pay_invoice` request, sealed with NIP-04 for the
/// service key; the identifier is the canonical hash of the fields and the
/// signature verifies for the client key — that is, the result is `wf`.
pub fn build_signed_event(
    client_secret: &Vec<u8>,
    client_pubkey: &Vec<u8>,
    service_pubkey: &Vec<u8>,
    invoice: &str,
    created_at: u64,
) -> (r: SignedRequestEvent)
    requires
        xonly_pubkey_of(client_secret@) == Some(client_pubkey@),
        valid_xonly_pk(service_pubkey@),
        client_pubkey@.len() == 32,
        service_pubkey@.len() == 32,
    ensures
        r.wf(),
        r.pubkey@ == client_pubkey@,
        r.created_at == created_at,
        r.kind == WALLET_REQUEST_KIND,
        r.service_pubkey@ == service_pubkey@,
        nip04_plain(client_secret@, service_pubkey@, r.content@) == Some(
            payload_bytes(invoice.spec_bytes()),
        ),
{
    let payload = build_payload(invoice);
    let content = match nip04_encrypt(client_secret, service_pubkey, &payload) {
        Some(c) => c,
        None => {
            proof {
                assert(false);
            }
            String::new()
        },
    };
    let id = match compute_event_id(
        client_pubkey,
        created_at,
        WALLET_REQUEST_KIND,
        service_pubkey,
        content.as_str(),
    ) {
        Some(i) => i,
        None => {
            proof {
                assert(false);
            }
            Vec::new()
        },
    };
    let sig = match schnorr_sign(client_secret, &id) {
        Some(s) => s,
        None => {
            proof {
                assert(false);
            }
            Vec::new()
        },
    };
    SignedRequestEvent {
        id,
        pubkey: client_pubkey.clone(),
        created_at,
        kind: WALLET_REQUEST_KIND,
        service_pubkey: service_pubkey.clone(),
        content,
        sig,
    }
}

} // verus!
