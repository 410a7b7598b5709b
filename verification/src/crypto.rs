use vstd::prelude::*;

verus! {

/// The x-only public key that the curve library derives from a 32-byte
/// secret, or nothing when the bytes are not a valid scalar.
pub uninterp spec fn xonly_pubkey_of(secret: Seq<u8>) -> Option<Seq<u8>>;

/// Whether 32 bytes name a point on the curve, as the curve library decides.
pub uninterp spec fn valid_xonly_pk(pk: Seq<u8>) -> bool;

/// What NIP-04 decryption with the shared secret of `(secret, peer)` makes
/// of a ciphertext, or nothing when the ciphertext does not decrypt.
pub uninterp spec fn nip04_plain(secret: Seq<u8>, peer: Seq<u8>, cipher: Seq<char>) -> Option<
    Seq<u8>,
>;

/// Whether a 64-byte Schnorr signature verifies for a key over a message.
pub uninterp spec fn schnorr_verifies(pk: Seq<u8>, msg: Seq<u8>, sig: Seq<u8>) -> bool;

/// The NIP-01 event identifier: the hash of the canonical serialization
/// `[0, pubkey, created_at, kind, tags, content]` with one `p` tag.
pub uninterp spec fn event_id_of(
    pubkey: Seq<u8>,
    created_at: u64,
    kind: u16,
    service: Seq<u8>,
    content: Seq<char>,
) -> Seq<u8>;

/// Relies on `nostr::key::SecretKey::from_slice`, which accepts exactly the
/// valid curve scalars, and `nostr::key::Keys::new`, which derives the
/// 32-byte x-only public key of the secret.
#[verifier::external_body]
pub(crate) fn derive_pubkey(secret: &Vec<u8>) -> (r: Option<Vec<u8>>)
    ensures
        r is Some <==> xonly_pubkey_of(secret@) is Some,
        r is Some ==> Some(r->0@) == xonly_pubkey_of(secret@) && r->0@.len() == 32,
{
    let sk = nostr::key::SecretKey::from_slice(secret).ok()?;
    let keys = nostr::key::Keys::new(sk);
    Some(keys.public_key().to_bytes().to_vec())
}

/// Relies on `nostr::key::PublicKey::from_slice` (32 bytes) and
/// `PublicKey::xonly`, which succeeds exactly on x coordinates of curve
/// points.
#[verifier::external_body]
pub(crate) fn check_service_pubkey(pk: &Vec<u8>) -> (r: bool)
    ensures
        r == valid_xonly_pk(pk@),
{
    match nostr::key::PublicKey::from_slice(pk) {
        Ok(p) => p.xonly().is_ok(),
        Err(_) => false,
    }
}

/// Relies on `nostr::nips::nip04::encrypt`: AES-256-CBC under the ECDH
/// shared key with a fresh random IV, encoded as base64 ciphertext,
/// `?iv=`, base64 IV — an ASCII string that NIP-04 decryption with the same
/// key pair maps back to the plaintext. It fails exactly when the secret is
/// not a valid scalar or the peer key is not on the curve.
#[verifier::external_body]
pub(crate) fn nip04_encrypt(secret: &Vec<u8>, peer: &Vec<u8>, plain: &Vec<u8>) -> (r: Option<String>)
    ensures
        r is Some <==> (xonly_pubkey_of(secret@) is Some && valid_xonly_pk(peer@)),
        r is Some ==> nip04_plain(secret@, peer@, r->0@) == Some(plain@),
        r is Some ==> vstd::utf8::is_ascii_chars(r->0@),
{
    let sk = nostr::key::SecretKey::from_slice(secret).ok()?;
    let pk = nostr::key::PublicKey::from_slice(peer).ok()?;
    nostr::nips::nip04::encrypt(&sk, &pk, plain).ok()
}

/// Relies on `nostr::nips::nip04::decrypt_to_bytes`: deterministic
/// decryption under the ECDH shared key of the pair; fails on malformed
/// ciphertext or invalid keys.
#[verifier::external_body]
pub(crate) fn nip04_decrypt(secret: &Vec<u8>, peer: &Vec<u8>, cipher: &str) -> (r: Option<Vec<u8>>)
    ensures
        r is Some ==> Some(r->0@) == nip04_plain(secret@, peer@, cipher@),
        r is None ==> nip04_plain(secret@, peer@, cipher@) is None,
{
    let sk = nostr::key::SecretKey::from_slice(secret).ok()?;
    let pk = nostr::key::PublicKey::from_slice(peer).ok()?;
    nostr::nips::nip04::decrypt_to_bytes(&sk, &pk, cipher).ok()
}

/// Law: sealing a payload for a key pair and opening it with the same pair
/// gives the payload back exactly; with a valid secret and a service key on
/// the curve the round trip never fails.
pub fn nip04_roundtrip(secret: &Vec<u8>, peer: &Vec<u8>, plain: &Vec<u8>) -> (r: Option<Vec<u8>>)
    ensures
        r is Some ==> r->0@ == plain@,
        (xonly_pubkey_of(secret@) is Some && valid_xonly_pk(peer@)) ==> r is Some,
{
    match nip04_encrypt(secret, peer, plain) {
        Some(cipher) => nip04_decrypt(secret, peer, cipher.as_str()),
        None => None,
    }
}

/// Relies on `nostr::key::Keys::sign_schnorr`: a BIP-340 signature over the
/// message bytes by the key pair of the secret, which verification under
/// the derived x-only public key accepts.
#[verifier::external_body]
pub(crate) fn schnorr_sign(secret: &Vec<u8>, msg: &Vec<u8>) -> (r: Option<Vec<u8>>)
    ensures
        r is Some <==> xonly_pubkey_of(secret@) is Some,
        r is Some ==> r->0@.len() == 64 && schnorr_verifies(
            xonly_pubkey_of(secret@)->0,
            msg@,
            r->0@,
        ),
{
    let sk = nostr::key::SecretKey::from_slice(secret).ok()?;
    let keys = nostr::key::Keys::new(sk);
    Some(keys.sign_schnorr(msg).to_bytes().to_vec())
}

/// Relies on `nostr::event::EventId::compute`: the SHA-256 of the canonical
/// NIP-01 array over the given fields, with a single `p` tag naming the
/// service key. Returns nothing when a key is not 32 bytes.
#[verifier::external_body]
pub(crate) fn compute_event_id(
    pubkey: &Vec<u8>,
    created_at: u64,
    kind: u16,
    service: &Vec<u8>,
    content: &str,
) -> (r: Option<Vec<u8>>)
    ensures
        r is Some <==> (pubkey@.len() == 32 && service@.len() == 32),
        r is Some ==> Some(r->0@) == Some(event_id_of(pubkey@, created_at, kind, service@, content@)),
        r is Some ==> r->0@.len() == 32,
{
    let pk = nostr::key::PublicKey::from_slice(pubkey).ok()?;
    let svc = nostr::key::PublicKey::from_slice(service).ok()?;
    let tags = nostr::event::Tags::from_list(vec![nostr::event::Tag::public_key(svc)]);
    let ts = nostr::types::Timestamp::from_secs(created_at);
    let kd = nostr::event::Kind::from_u16(kind);
    let id = nostr::event::EventId::compute(&pk, &ts, &kd, &tags, content);
    Some(id.to_bytes().to_vec())
}

} // verus!
