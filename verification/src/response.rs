use nostr::nips::nip47;
use vstd::prelude::*;

verus! {

/// A decrypted wallet response, classified: a settled payment with its
/// preimage, a wallet-reported failure, or a body that is no `pay_invoice`
/// response.
#[derive(Debug)]
pub enum WalletResponse {
    Paid { preimage: String },
    Failed { code: String, message: String },
    Unrecognized,
}

/// What the NIP-47 response decoder makes of a decrypted body.
pub uninterp spec fn wallet_response_of(body: Seq<u8>) -> WalletResponse;

/// Relies on `nostr::nips::nip47::Response::from_json`: the NIP-47 decoding
/// of a wallet response body, deterministic in the bytes; an error object
/// classifies as failed, a `pay_invoice` result with a preimage as paid.
#[verifier::external_body]
pub(crate) fn parse_wallet_response(body: &Vec<u8>) -> (r: WalletResponse)
    ensures
        r == wallet_response_of(body@),
{
    match nip47::Response::from_json(body) {
        Ok(resp) => match (resp.error, resp.result) {
            (Some(e), _) => WalletResponse::Failed {
                code: format!("{:?}", e.code),
                message: e.message,
            },
            (None, Some(nip47::ResponseResult::PayInvoice(p))) => WalletResponse::Paid {
                preimage: p.preimage,
            },
            _ => WalletResponse::Unrecognized,
        },
        Err(_) => WalletResponse::Unrecognized,
    }
}

} // verus!
