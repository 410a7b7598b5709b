use vstd::prelude::*;

use crate::errors::{ParamName, UriError};
use crate::hex::{all_hex_digits, hex_bytes, hex_val, is_hex_digit};
use crate::hex::{decode_hex, hex_digit_value};
use crate::text::{all_ascii, ascii_string, bytes_eq, bytes_range, lemma_ascii_chars_encode};
use vstd::string::StringSliceAdditionalSpecFns;

verus! {

/// First position of a byte in a sequence.
pub open spec fn find_byte(s: Seq<u8>, b: u8) -> Option<int>
    decreases s.len(),
{
    if s.len() == 0 {
        None
    } else if s[0] == b {
        Some(0)
    } else {
        match find_byte(s.drop_first(), b) {
            Some(i) => Some(i + 1),
            None => None,
        }
    }
}

/// The position `find_byte` returns is the first occurrence.
pub proof fn lemma_find_byte(s: Seq<u8>, b: u8)
    ensures
        match find_byte(s, b) {
            Some(i) => 0 <= i < s.len() && s[i] == b && forall|j: int| 0 <= j < i ==> s[j] != b,
            None => forall|j: int| 0 <= j < s.len() ==> s[j] != b,
        },
    decreases s.len(),
{
    if s.len() > 0 && s[0] != b {
        lemma_find_byte(s.drop_first(), b);
        assert forall|j: int| 1 <= j < s.len() implies #[trigger] s[j] == s.drop_first()[j - 1] by {}
    }
}

/// First position of the `://` separator.
pub open spec fn find_sep(s: Seq<u8>) -> Option<int>
    decreases s.len(),
{
    if s.len() < 3 {
        None
    } else if s[0] == (':' as u8) && s[1] == ('/' as u8) && s[2] == ('/' as u8) {
        Some(0)
    } else {
        match find_sep(s.drop_first()) {
            Some(i) => Some(i + 1),
            None => None,
        }
    }
}

/// Whether the separator stands at position `i`.
pub open spec fn sep_at(s: Seq<u8>, i: int) -> bool {
    0 <= i && i + 3 <= s.len() && s[i] == (':' as u8) && s[i + 1] == ('/' as u8) && s[i + 2] == ('/' as u8)
}

/// The position `find_sep` returns is the first separator.
pub proof fn lemma_find_sep(s: Seq<u8>)
    ensures
        match find_sep(s) {
            Some(i) => sep_at(s, i) && forall|j: int| 0 <= j < i ==> !sep_at(s, j),
            None => forall|j: int| !sep_at(s, j),
        },
    decreases s.len(),
{
    if s.len() >= 3 && !(s[0] == (':' as u8) && s[1] == ('/' as u8) && s[2] == ('/' as u8)) {
        lemma_find_sep(s.drop_first());
        assert forall|j: int| 0 <= j && sep_at(s, j) implies sep_at(s.drop_first(), j - 1) || j
            == 0 by {}
    } else if s.len() < 3 {
        assert forall|j: int| !sep_at(s, j) by {}
    }
}

/// Percent-decoding of a query component: `%` with two hex digits becomes the
/// denoted byte, `+` becomes a space, everything else stands for itself.
pub open spec fn pct_decode(s: Seq<u8>) -> Seq<u8>
    decreases s.len(),
{
    if s.len() == 0 {
        Seq::empty()
    } else if s[0] == ('%' as u8) && s.len() >= 3 && is_hex_digit(s[1]) && is_hex_digit(s[2]) {
        seq![(hex_val(s[1]) * 16 + hex_val(s[2])) as u8] + pct_decode(s.skip(3))
    } else if s[0] == ('+' as u8) {
        seq![(' ' as u8)] + pct_decode(s.drop_first())
    } else {
        seq![s[0]] + pct_decode(s.drop_first())
    }
}

/// Key and percent-decoded value of one `key=value` query segment; a segment
/// without `=` is a key with an empty value.
pub open spec fn split_pair(seg: Seq<u8>) -> (Seq<u8>, Seq<u8>) {
    match find_byte(seg, ('=' as u8)) {
        None => (pct_decode(seg), Seq::empty()),
        Some(i) => (pct_decode(seg.take(i)), pct_decode(seg.skip(i + 1))),
    }
}

/// End of the first `&`-delimited segment, clamped into the sequence.
pub open spec fn seg_end(q: Seq<u8>) -> int {
    match find_byte(q, ('&' as u8)) {
        None => q.len() as int,
        Some(i) => if 0 <= i < q.len() {
            i
        } else {
            q.len() as int
        },
    }
}

/// Value of the first query pair whose decoded key matches, if any.
pub open spec fn param_lookup(q: Seq<u8>, key: Seq<u8>) -> Option<Seq<u8>>
    decreases q.len(),
{
    let end = seg_end(q);
    let kv = split_pair(q.take(end));
    if kv.0 == key {
        Some(kv.1)
    } else if end == q.len() {
        None
    } else {
        param_lookup(q.skip(end + 1), key)
    }
}

pub open spec fn relay_key() -> Seq<u8> {
    seq![('r' as u8), ('e' as u8), ('l' as u8), ('a' as u8), ('y' as u8)]
}

pub open spec fn secret_key_name() -> Seq<u8> {
    seq![('s' as u8), ('e' as u8), ('c' as u8), ('r' as u8), ('e' as u8), ('t' as u8)]
}

pub open spec fn lud16_key() -> Seq<u8> {
    seq![('l' as u8), ('u' as u8), ('d' as u8), ('1' as u8), ('6' as u8)]
}

/// A 64-digit hex string: the shape of an x-only public key or of a secret
/// scalar in a wallet-connect URI.
pub open spec fn is_hex64(s: Seq<u8>) -> bool {
    s.len() == 64 && all_hex_digits(s)
}

/// The parsed parts of a wallet-connect URI, as mathematical sequences:
/// decoded key material, relay bytes, and the optional lightning address.
#[verifier::ext_equal]
pub struct ConnParts {
    pub service_pubkey: Seq<u8>,
    pub relay: Seq<u8>,
    pub secret: Seq<u8>,
    pub lud16: Option<Seq<u8>>,
}

/// First occurrence of a byte within `v[i..j]`, as an absolute position.
pub(crate) fn find_byte_range(v: &Vec<u8>, b: u8, i: usize, j: usize) -> (r: Option<usize>)
    requires
        i <= j <= v@.len(),
    ensures
        match (r, find_byte(v@.subrange(i as int, j as int), b)) {
            (Some(a), Some(k)) => a as int == i + k,
            (None, None) => true,
            _ => false,
        },
    decreases j - i,
{
    if i == j {
        None
    } else if v[i] == b {
        assert(v@.subrange(i as int, j as int)[0] == b);
        Some(i)
    } else {
        let r = find_byte_range(v, b, i + 1, j);
        proof {
            assert(v@.subrange(i as int, j as int).drop_first() =~= v@.subrange(
                i as int + 1,
                j as int,
            ));
        }
        r
    }
}

/// First `://` at or after position `i`, as an absolute position.
fn find_sep_from(v: &Vec<u8>, i: usize) -> (r: Option<usize>)
    requires
        i <= v@.len(),
    ensures
        match (r, find_sep(v@.skip(i as int))) {
            (Some(a), Some(k)) => a as int == i + k,
            (None, None) => true,
            _ => false,
        },
    decreases v@.len() - i,
{
    let ghost s = v@.skip(i as int);
    if v.len() - i < 3 {
        None
    } else if v[i] == (':' as u8) && v[i + 1] == ('/' as u8) && v[i + 2] == ('/' as u8) {
        assert(s[0] == (':' as u8) && s[1] == ('/' as u8) && s[2] == ('/' as u8));
        Some(i)
    } else {
        assert(s[0] == v@[i as int] && s[1] == v@[i as int + 1] && s[2] == v@[i as int + 2]);
        let r = find_sep_from(v, i + 1);
        proof {
            assert(s.drop_first() =~= v@.skip(i as int + 1));
        }
        r
    }
}

/// Percent-decodes `v[i..j]`.
fn pct_decode_range(v: &Vec<u8>, i: usize, j: usize) -> (r: Vec<u8>)
    requires
        i <= j <= v@.len(),
    ensures
        r@ == pct_decode(v@.subrange(i as int, j as int)),
    decreases j - i,
{
    let ghost s = v@.subrange(i as int, j as int);
    if i == j {
        let r: Vec<u8> = Vec::new();
        assert(r@ =~= pct_decode(s));
        r
    } else {
        let c = v[i];
        assert(s[0] == c);
        let mut out: Vec<u8> = Vec::new();
        if c == ('%' as u8) && j - i >= 3 {
            assert(s[1] == v@[i as int + 1] && s[2] == v@[i as int + 2]);
            match (hex_digit_value(v[i + 1]), hex_digit_value(v[i + 2])) {
                (Some(h), Some(l)) => {
                    out.push(h * 16 + l);
                    let mut rest = pct_decode_range(v, i + 3, j);
                    out.append(&mut rest);
                    proof {
                        assert(s.skip(3) =~= v@.subrange(i as int + 3, j as int));
                        assert(out@ =~= pct_decode(s));
                    }
                },
                _ => {
                    out.push(c);
                    let mut rest = pct_decode_range(v, i + 1, j);
                    out.append(&mut rest);
                    proof {
                        assert(s.drop_first() =~= v@.subrange(i as int + 1, j as int));
                        assert(out@ =~= pct_decode(s));
                    }
                },
            }
        } else {
            if c == ('+' as u8) {
                out.push(' ' as u8);
            } else {
                out.push(c);
            }
            let mut rest = pct_decode_range(v, i + 1, j);
            out.append(&mut rest);
            proof {
                assert(s.drop_first() =~= v@.subrange(i as int + 1, j as int));
                assert(out@ =~= pct_decode(s));
            }
        }
        out
    }
}

/// Looks a decoded key up among the query pairs of `v[start..]`.
fn param_lookup_from(v: &Vec<u8>, start: usize, key: &Vec<u8>) -> (r: Option<Vec<u8>>)
    requires
        start <= v@.len(),
    ensures
        match (r, param_lookup(v@.skip(start as int), key@)) {
            (Some(a), Some(b)) => a@ == b,
            (None, None) => true,
            _ => false,
        },
    decreases v@.len() - start,
{
    let ghost q = v@.skip(start as int);
    let amp = find_byte_range(v, ('&' as u8), start, v.len());
    proof {
        assert(q =~= v@.subrange(start as int, v@.len() as int));
        lemma_find_byte(q, ('&' as u8));
    }
    let end_abs: usize = match amp {
        Some(k) => k,
        None => v.len(),
    };
    assert(seg_end(q) == end_abs - start);
    let ghost seg = q.take(seg_end(q));
    proof {
        assert(seg =~= v@.subrange(start as int, end_abs as int));
    }
    let eq = find_byte_range(v, ('=' as u8), start, end_abs);
    proof {
        lemma_find_byte(seg, ('=' as u8));
    }
    let kvec: Vec<u8>;
    let mut vvec: Vec<u8>;
    match eq {
        Some(e) => {
            kvec = pct_decode_range(v, start, e);
            vvec = pct_decode_range(v, e + 1, end_abs);
            proof {
                let erel = e - start;
                assert(seg.take(erel) =~= v@.subrange(start as int, e as int));
                assert(seg.skip(erel + 1) =~= v@.subrange(e as int + 1, end_abs as int));
            }
        },
        None => {
            kvec = pct_decode_range(v, start, end_abs);
            vvec = Vec::new();
            assert(vvec@ =~= Seq::<u8>::empty());
        },
    }
    assert(kvec@ == split_pair(seg).0 && vvec@ == split_pair(seg).1);
    if bytes_eq(&kvec, key) {
        Some(vvec)
    } else if end_abs == v.len() {
        None
    } else {
        proof {
            assert(q.skip(seg_end(q) + 1) =~= v@.skip(end_abs as int + 1));
        }
        param_lookup_from(v, end_abs + 1, key)
    }
}

/// ASCII test over a whole byte vector.
pub(crate) fn check_all_ascii(v: &Vec<u8>) -> (r: bool)
    ensures
        r == all_ascii(v@),
{
    let mut i: usize = 0;
    while i < v.len()
        invariant
            i <= v@.len(),
            forall|j: int| 0 <= j < i ==> #[trigger] v@[j] < 128,
        decreases v@.len() - i,
    {
        if v[i] >= 128 {
            return false;
        }
        i = i + 1;
    }
    true
}

fn key_vec_relay() -> (r: Vec<u8>)
    ensures
        r@ == relay_key(),
{
    let mut v: Vec<u8> = Vec::new();
    v.push('r' as u8);
    v.push('e' as u8);
    v.push('l' as u8);
    v.push('a' as u8);
    v.push('y' as u8);
    assert(v@ =~= relay_key());
    v
}

fn key_vec_secret() -> (r: Vec<u8>)
    ensures
        r@ == secret_key_name(),
{
    let mut v: Vec<u8> = Vec::new();
    v.push('s' as u8);
    v.push('e' as u8);
    v.push('c' as u8);
    v.push('r' as u8);
    v.push('e' as u8);
    v.push('t' as u8);
    assert(v@ =~= secret_key_name());
    v
}

fn key_vec_lud16() -> (r: Vec<u8>)
    ensures
        r@ == lud16_key(),
{
    let mut v: Vec<u8> = Vec::new();
    v.push('l' as u8);
    v.push('u' as u8);
    v.push('d' as u8);
    v.push('1' as u8);
    v.push('6' as u8);
    assert(v@ =~= lud16_key());
    v
}

/// Full parse of a wallet-connect URI `scheme://host?query`.
///
/// The host is the hex-encoded service key; `relay` and `secret` are required
/// query parameters and `lud16` an optional one. A string without separator,
/// scheme or host, one that is not ASCII, an empty or non-ASCII relay value,
/// or a non-ASCII lightning address is `MalformedUri`; an absent required
/// parameter is `MissingParameter`; a host or secret that is not a 64-digit
/// hex string is `InvalidKeyEncoding`.
pub open spec fn parse_uri_spec(s: Seq<u8>) -> Result<ConnParts, UriError> {
    if !all_ascii(s) {
        Err(UriError::MalformedUri)
    } else {
        match find_sep(s) {
            None => Err(UriError::MalformedUri),
            Some(sep) => {
                if sep == 0 {
                    Err(UriError::MalformedUri)
                } else {
                    let rest = s.skip(sep + 3);
                    let host = match find_byte(rest, ('?' as u8)) {
                        None => rest,
                        Some(q) => rest.take(q),
                    };
                    let query = match find_byte(rest, ('?' as u8)) {
                        None => Seq::empty(),
                        Some(q) => rest.skip(q + 1),
                    };
                    if host.len() == 0 {
                        Err(UriError::MalformedUri)
                    } else {
                        match param_lookup(query, relay_key()) {
                            None => Err(UriError::MissingParameter { name: ParamName::Relay }),
                            Some(relay) => match param_lookup(query, secret_key_name()) {
                                None => Err(
                                    UriError::MissingParameter { name: ParamName::Secret },
                                ),
                                Some(secret) => {
                                    if relay.len() == 0 || !all_ascii(relay) {
                                        Err(UriError::MalformedUri)
                                    } else if !is_hex64(host) || !is_hex64(secret) {
                                        Err(UriError::InvalidKeyEncoding)
                                    } else {
                                        let lud = param_lookup(query, lud16_key());
                                        if lud is Some && !all_ascii(lud->0) {
                                            Err(UriError::MalformedUri)
                                        } else {
                                            Ok(
                                                ConnParts {
                                                    service_pubkey: hex_bytes(host),
                                                    relay: relay,
                                                    secret: hex_bytes(secret),
                                                    lud16: lud,
                                                },
                                            )
                                        }
                                    }
                                },
                            },
                        }
                    }
                }
            },
        }
    }
}

/// A validated wallet-connect connection descriptor: decoded service key,
/// relay URL, decoded client secret, and the optional lightning address hint.
#[derive(Debug)]
pub struct NwcConnection {
    pub service_pubkey: Vec<u8>,
    pub relay_url: String,
    pub client_secret: Vec<u8>,
    pub lud16: Option<String>,
}

impl NwcConnection {
    /// Shape invariant: 32-byte key material and a nonempty ASCII relay URL.
    pub open spec fn wf(self) -> bool {
        &&& self.service_pubkey@.len() == 32
        &&& self.client_secret@.len() == 32
        &&& self.relay_url@.len() > 0
        &&& vstd::utf8::is_ascii_chars(self.relay_url@)
    }
}

impl View for NwcConnection {
    type V = ConnParts;

    open spec fn view(&self) -> ConnParts {
        ConnParts {
            service_pubkey: self.service_pubkey@,
            relay: vstd::utf8::encode_utf8(self.relay_url@),
            secret: self.client_secret@,
            lud16: match self.lud16 {
                Some(s) => Some(vstd::utf8::encode_utf8(s@)),
                None => None,
            },
        }
    }
}

/// Parses a wallet-connect URI into a connection descriptor.
///
/// The result is exactly what `parse_uri_spec` says of the UTF-8 bytes of the
/// input: the same error on every rejected string, and on success a
/// descriptor whose view is the parsed parts.
pub fn parse_nwc_uri(s: &str) -> (r: Result<NwcConnection, UriError>)
    ensures
        match r {
            Ok(c) => parse_uri_spec(s.spec_bytes()) == Ok::<ConnParts, UriError>(c@) && c.wf(),
            Err(e) => parse_uri_spec(s.spec_bytes()) == Err::<ConnParts, UriError>(e),
        },
{
    let v = s.as_bytes_vec();
    if !check_all_ascii(&v) {
        return Err(UriError::MalformedUri);
    }
    let sep = match find_sep_from(&v, 0) {
        None => {
            proof {
                assert(v@.skip(0) =~= v@);
            }
            return Err(UriError::MalformedUri);
        },
        Some(k) => {
            proof {
                assert(v@.skip(0) =~= v@);
            }
            k
        },
    };
    if sep == 0 {
        return Err(UriError::MalformedUri);
    }
    let n = v.len();
    proof {
        lemma_find_sep(v@);
        assert(sep_at(v@, sep as int));
        assert(sep as int + 3 <= n);
    }
    let ghost rest = v@.skip(sep as int + 3);
    let hstart = sep + 3;
    let qmark = find_byte_range(&v, '?' as u8, hstart, v.len());
    proof {
        assert(rest =~= v@.subrange(hstart as int, v@.len() as int));
        lemma_find_byte(rest, '?' as u8);
    }
    let hend: usize = match qmark {
        Some(k) => k,
        None => v.len(),
    };
    let ghost host = match find_byte(rest, '?' as u8) {
        None => rest,
        Some(q) => rest.take(q),
    };
    let ghost query = match find_byte(rest, '?' as u8) {
        None => Seq::<u8>::empty(),
        Some(q) => rest.skip(q + 1),
    };
    proof {
        assert(host =~= v@.subrange(hstart as int, hend as int));
    }
    if hend == hstart {
        return Err(UriError::MalformedUri);
    }
    let qstart: usize = if hend == v.len() {
        v.len()
    } else {
        hend + 1
    };
    proof {
        assert(query =~= v@.skip(qstart as int));
    }
    let rkey = key_vec_relay();
    let relay = match param_lookup_from(&v, qstart, &rkey) {
        None => {
            return Err(UriError::MissingParameter { name: ParamName::Relay });
        },
        Some(val) => val,
    };
    let skey = key_vec_secret();
    let secret = match param_lookup_from(&v, qstart, &skey) {
        None => {
            return Err(UriError::MissingParameter { name: ParamName::Secret });
        },
        Some(val) => val,
    };
    if relay.len() == 0 || !check_all_ascii(&relay) {
        return Err(UriError::MalformedUri);
    }
    let host_vec = bytes_range(&v, hstart, hend);
    let host_bytes = if host_vec.len() == 64 {
        decode_hex(&host_vec)
    } else {
        None
    };
    let secret_bytes = if secret.len() == 64 {
        decode_hex(&secret)
    } else {
        None
    };
    let (pk, sk) = match (host_bytes, secret_bytes) {
        (Some(p), Some(k)) => (p, k),
        _ => {
            return Err(UriError::InvalidKeyEncoding);
        },
    };
    let lkey = key_vec_lud16();
    let lud = param_lookup_from(&v, qstart, &lkey);
    let lud16: Option<String> = match lud {
        Some(lv) => {
            if !check_all_ascii(&lv) {
                return Err(UriError::MalformedUri);
            }
            let ghost lb = lv@;
            let ls = ascii_string(lv);
            proof {
                lemma_ascii_chars_encode(lb);
            }
            Some(ls)
        },
        None => None,
    };
    let ghost relay_bytes = relay@;
    let relay_url = ascii_string(relay);
    proof {
        lemma_ascii_chars_encode(relay_bytes);
    }
    let conn = NwcConnection { service_pubkey: pk, relay_url, client_secret: sk, lud16 };
    proof {
        assert(conn@ =~= parse_uri_spec(s.spec_bytes())->Ok_0);
    }
    Ok(conn)
}

} // verus!
