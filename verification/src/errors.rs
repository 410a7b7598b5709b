use vstd::prelude::*;

verus! {

/// Names of the query parameters that a wallet-connect URI must carry.
#[derive(Clone, Copy, Debug, PartialEq, Eq, Structural)]
pub enum ParamName {
    Relay,
    Secret,
}

/// Failures of the connection-URI parser.
#[derive(Clone, Copy, Debug, PartialEq, Eq, Structural)]
pub enum UriError {
    /// The string is not of the shape `scheme://host?query`.
    MalformedUri,
    /// A required query parameter is absent.
    MissingParameter { name: ParamName },
    /// The host or the secret is not a 64-digit hex encoding of key material.
    InvalidKeyEncoding,
}

/// Failure of the lightning-address validator.
#[derive(Clone, Copy, Debug, PartialEq, Eq, Structural)]
pub enum AddressError {
    InvalidLightningAddress,
}

/// Failures of the LNURL-pay resolution steps.
#[derive(Clone, Copy, Debug, PartialEq, Eq, Structural)]
pub enum LnurlError {
    /// The discovery request did not complete.
    LnurlFetchError,
    /// The discovery body was not a well-formed service description.
    LnurlParseError,
    /// The requested amount lies outside the service bounds, in millisats.
    AmountOutOfRange { min: u64, max: u64, requested: u64 },
    /// The callback request did not complete.
    InvoiceFetchError,
    /// The callback body carried no invoice field.
    InvoiceFieldMissing,
}

/// Failures while deriving keys or sealing the request event.
#[derive(Clone, Copy, Debug, PartialEq, Eq, Structural)]
pub enum CryptoError {
    /// The secret is not a valid scalar for the curve.
    InvalidSecretKey,
    /// The payload could not be encrypted for the service key.
    EncryptionError,
}

/// The reason a payment attempt ended without success.
#[derive(Clone, Debug, PartialEq, Eq)]
pub enum FailureReason {
    Uri(UriError),
    Address(AddressError),
    Lnurl(LnurlError),
    Crypto(CryptoError),
    /// The wallet service reported an error for the request.
    PaymentFailed { code: String, message: String },
    /// The relay connection failed while the attempt was under way.
    Transport { detail: String },
    /// No classifying response arrived within the timeout window.
    Timeout,
}

/// Rejections of a session call that does not fit the current state.
#[derive(Clone, Copy, Debug, PartialEq, Eq, Structural)]
pub enum SessionError {
    /// A payment attempt is already outstanding.
    AttemptInProgress,
    /// The call needs a connected, idle session.
    NotConnected,
    /// `acknowledge` outside a completed attempt.
    NotCompleted,
}

} // verus!
