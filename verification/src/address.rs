use vstd::prelude::*;

use crate::errors::AddressError;
use crate::text::{ascii_chars, ascii_string, bytes_range, lemma_ascii_chars_encode};
use crate::uri::{find_byte, find_byte_range, lemma_find_byte};
use vstd::string::StringSliceAdditionalSpecFns;

verus! {

/// A byte a lightning address may hold: printable ASCII, no space.
pub open spec fn is_addr_byte(b: u8) -> bool {
    33 <= b <= 126
}

pub open spec fn all_addr_bytes(s: Seq<u8>) -> bool {
    forall|i: int| 0 <= i < s.len() ==> is_addr_byte(#[trigger] s[i])
}

/// Structural validity of a lightning address `local@domain`: printable
/// ASCII, exactly one `@` with text on both sides, and a dot inside the
/// domain that neither starts nor ends it.
pub open spec fn valid_address(s: Seq<u8>) -> bool {
    &&& all_addr_bytes(s)
    &&& find_byte(s, '@' as u8) is Some
    &&& {
        let at = find_byte(s, '@' as u8)->0;
        let domain = s.skip(at + 1);
        &&& at > 0
        &&& domain.len() > 0
        &&& find_byte(domain, '@' as u8) is None
        &&& find_byte(domain, '.' as u8) is Some
        &&& domain[0] != ('.' as u8)
        &&& domain[domain.len() - 1] != ('.' as u8)
    }
}

/// The part before the `@` of a valid address.
pub open spec fn addr_local(s: Seq<u8>) -> Seq<u8>
    recommends
        valid_address(s),
{
    s.take(find_byte(s, '@' as u8)->0)
}

/// The part after the `@` of a valid address.
pub open spec fn addr_domain(s: Seq<u8>) -> Seq<u8>
    recommends
        valid_address(s),
{
    s.skip(find_byte(s, '@' as u8)->0 + 1)
}

/// The two parts of a validated lightning address.
#[verifier::ext_equal]
pub struct AddrParts {
    pub local: Seq<char>,
    pub domain: Seq<char>,
}

/// A structurally validated lightning address, split at its `@`.
#[derive(Debug)]
pub struct LightningAddress {
    pub local: String,
    pub domain: String,
}

impl View for LightningAddress {
    type V = AddrParts;

    open spec fn view(&self) -> AddrParts {
        AddrParts { local: self.local@, domain: self.domain@ }
    }
}

impl LightningAddress {
    /// Both parts nonempty ASCII; the whole validates.
    pub open spec fn wf(self) -> bool {
        &&& vstd::utf8::is_ascii_chars(self.local@)
        &&& vstd::utf8::is_ascii_chars(self.domain@)
        &&& valid_address(
            vstd::utf8::encode_utf8(self.local@) + seq![('@' as u8)] + vstd::utf8::encode_utf8(
                self.domain@,
            ),
        )
    }

    /// Validates an address string and splits it at the `@`.
    pub fn new(value: &str) -> (r: Result<LightningAddress, AddressError>)
        ensures
            r is Ok <==> valid_address(value.spec_bytes()),
            r is Ok ==> {
                let a = r->Ok_0;
                &&& a@.local == ascii_chars(addr_local(value.spec_bytes()))
                &&& a@.domain == ascii_chars(addr_domain(value.spec_bytes()))
                &&& a.wf()
            },
    {
        let v = value.as_bytes_vec();
        let n = v.len();
        let mut i: usize = 0;
        while i < n
            invariant
                n == v@.len(),
                i <= n,
                v@ == value.spec_bytes(),
                forall|j: int| 0 <= j < i ==> is_addr_byte(#[trigger] v@[j]),
            decreases n - i,
        {
            if v[i] < 33 || v[i] > 126 {
                assert(!all_addr_bytes(v@)) by {
                    assert(!is_addr_byte(v@[i as int]));
                }
                return Err(AddressError::InvalidLightningAddress);
            }
            i = i + 1;
        }
        let at = match find_byte_range(&v, '@' as u8, 0, n) {
            None => {
                proof {
                    assert(v@.subrange(0, n as int) =~= v@);
                }
                return Err(AddressError::InvalidLightningAddress);
            },
            Some(k) => {
                proof {
                    assert(v@.subrange(0, n as int) =~= v@);
                    lemma_find_byte(v@, '@' as u8);
                }
                k
            },
        };
        let ghost domain_g = v@.skip(at as int + 1);
        proof {
            assert(domain_g =~= v@.subrange(at as int + 1, n as int));
        }
        if at == 0 || at + 1 == n {
            return Err(AddressError::InvalidLightningAddress);
        }
        if let Some(_) = find_byte_range(&v, '@' as u8, at + 1, n) {
            return Err(AddressError::InvalidLightningAddress);
        }
        let dot = find_byte_range(&v, '.' as u8, at + 1, n);
        proof {
            lemma_find_byte(domain_g, '.' as u8);
        }
        if dot.is_none() {
            return Err(AddressError::InvalidLightningAddress);
        }
        if v[at + 1] == ('.' as u8) || v[n - 1] == ('.' as u8) {
            assert(domain_g[0] == v@[at as int + 1]);
            assert(domain_g[domain_g.len() - 1] == v@[n - 1]);
            return Err(AddressError::InvalidLightningAddress);
        }
        assert(valid_address(v@)) by {
            assert(domain_g[0] == v@[at as int + 1]);
            assert(domain_g[domain_g.len() - 1] == v@[n - 1]);
        }
        let local_b = bytes_range(&v, 0, at);
        let domain_b = bytes_range(&v, at + 1, n);
        let ghost lb = local_b@;
        let ghost db = domain_b@;
        let local = ascii_string(local_b);
        let domain = ascii_string(domain_b);
        proof {
            lemma_ascii_chars_encode(lb);
            lemma_ascii_chars_encode(db);
            assert(lb =~= addr_local(v@));
            assert(db =~= addr_domain(v@));
            assert(vstd::utf8::encode_utf8(local@) + seq![('@' as u8)] + vstd::utf8::encode_utf8(
                domain@,
            ) =~= v@);
        }
        Ok(LightningAddress { local, domain })
    }

    /// The LNURL-pay discovery URL for this address.
    pub fn lnurlp_url(&self) -> (r: String)
        ensures
            r@ == "https://"@ + self.domain@ + "/.well-known/lnurlp/"@ + self.local@,
    {
        let mut out = String::new();
        out.append("https://");
        out.append(self.domain.as_str());
        out.append("/.well-known/lnurlp/");
        out.append(self.local.as_str());
        out
    }

    /// The address written back as `local@domain`.
    pub fn to_text(&self) -> (r: String)
        ensures
            r@ == self.local@ + "@"@ + self.domain@,
    {
        let mut out = String::new();
        out.append(self.local.as_str());
        out.append("@");
        out.append(self.domain.as_str());
        out
    }
}

} // verus!
