use vstd::prelude::*;

use crate::errors::LnurlError;
use crate::text::{ascii_chars, ascii_string};

verus! {

/// Whether a field of the payer-data block is mandatory.
#[derive(Debug)]
pub struct Mandatory {
    pub mandatory: bool,
}

/// The optional payer-data block of a LNURL-pay service description.
#[derive(Debug)]
pub struct PayerData {
    pub name: Option<Mandatory>,
    pub identifier: Option<Mandatory>,
}

/// The service description returned by LNURL-pay discovery: sendable bounds
/// in millisats, the callback URL, and the descriptive fields.
#[derive(Debug)]
pub struct LnService {
    pub min_sendable: u64,
    pub max_sendable: u64,
    pub comment_allowed: Option<u64>,
    pub tag: String,
    pub metadata: String,
    pub callback: String,
    pub payer_data: Option<PayerData>,
    pub disposable: Option<bool>,
    pub allows_nostr: Option<bool>,
    pub nostr_pubkey: Option<String>,
}

/// Decimal digits of a number, as ASCII bytes, most significant first.
pub open spec fn dec_digits(n: nat) -> Seq<u8>
    decreases n,
{
    if n < 10 {
        seq![(n + ('0' as u8)) as u8]
    } else {
        dec_digits(n / 10) + seq![(n % 10 + ('0' as u8)) as u8]
    }
}

/// Appends the decimal digits of `n`.
pub fn push_dec(n: u64, out: &mut Vec<u8>)
    ensures
        final(out)@ == old(out)@ + dec_digits(n as nat),
        final(out)@.len() > old(out)@.len(),
    decreases n,
{
    if n < 10 {
        out.push((n as u8) + ('0' as u8));
        assert(out@ =~= old(out)@ + dec_digits(n as nat));
    } else {
        push_dec(n / 10, out);
        out.push(((n % 10) as u8) + ('0' as u8));
        assert(out@ =~= old(out)@ + dec_digits(n as nat));
    }
}

/// The decimal digits of a number as a string.
pub fn dec_string(n: u64) -> (r: String)
    ensures
        r@ == ascii_chars(dec_digits(n as nat)),
{
    let mut digits: Vec<u8> = Vec::new();
    push_dec(n, &mut digits);
    proof {
        lemma_dec_digits_ascii(n as nat);
        assert(digits@ =~= dec_digits(n as nat));
    }
    ascii_string(digits)
}

/// Every decimal digit byte is ASCII.
pub proof fn lemma_dec_digits_ascii(n: nat)
    ensures
        forall|i: int| 0 <= i < dec_digits(n).len() ==> #[trigger] dec_digits(n)[i] < 128,
    decreases n,
{
    if n < 10 {
        assert(dec_digits(n)[0] == (n + ('0' as u8)) as u8);
    } else {
        lemma_dec_digits_ascii(n / 10);
        assert forall|i: int| 0 <= i < dec_digits(n).len() implies #[trigger] dec_digits(n)[i]
            < 128 by {
            if i < dec_digits(n / 10).len() {
                assert(dec_digits(n)[i] == dec_digits(n / 10)[i]);
            } else {
                assert(dec_digits(n)[i] == (n % 10 + ('0' as u8)) as u8);
            }
        }
    }
}

/// Millisats for a requested amount in sats, checked against the service
/// bounds: `Ok` exactly when `amount_sats * 1000` lies between
/// `min_sendable` and `max_sendable` inclusive; otherwise the out-of-range
/// error carries the bounds and the requested millisats, saturated at the
/// largest representable value.
pub fn amount_msat_in_range(amount_sats: u64, min_sendable: u64, max_sendable: u64) -> (r: Result<
    u64,
    LnurlError,
>)
    ensures
        match r {
            Ok(m) => m == amount_sats as int * 1000 && min_sendable <= m <= max_sendable,
            Err(e) => {
                &&& (e matches LnurlError::AmountOutOfRange { min, max, requested } ==> {
                    &&& min == min_sendable
                    &&& max == max_sendable
                    &&& requested as int == if amount_sats as int * 1000 <= u64::MAX as int {
                        amount_sats as int * 1000
                    } else {
                        u64::MAX as int
                    }
                })
                &&& (e matches LnurlError::AmountOutOfRange { min, max, requested })
                &&& (amount_sats as int * 1000 < min_sendable || amount_sats as int * 1000
                    > max_sendable)
            },
        },
{
    match amount_sats.checked_mul(1000) {
        Some(m) => {
            if min_sendable <= m && m <= max_sendable {
                Ok(m)
            } else {
                Err(
                    LnurlError::AmountOutOfRange {
                        min: min_sendable,
                        max: max_sendable,
                        requested: m,
                    },
                )
            }
        },
        None => Err(
            LnurlError::AmountOutOfRange {
                min: min_sendable,
                max: max_sendable,
                requested: u64::MAX,
            },
        ),
    }
}

/// The callback URL asking the service for an invoice over `msat` millisats:
/// the callback with an `amount` query parameter.
pub fn callback_with_amount(callback: &str, msat: u64) -> (r: String)
    ensures
        r@ == callback@ + "?amount="@ + ascii_chars(dec_digits(msat as nat)),
{
    let mut out = String::new();
    out.append(callback);
    out.append("?amount=");
    let digits = dec_string(msat);
    out.append(digits.as_str());
    out
}

} // verus!

