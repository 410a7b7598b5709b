//! A verified core for paying a Lightning invoice through a Nostr Wallet
//! Connect (NWC) capability URI: parsing the URI into connection parameters,
//! deriving session keys, resolving a lightning address via LNURL-pay,
//! building and signing the wallet-request event, and interpreting relay
//! responses inside an explicit payment-session state machine.


pub mod address;
pub mod crypto;
pub mod errors;
pub mod event;
pub mod hex;
pub mod lnurl;
pub mod relay;
pub mod response;
pub mod session;
pub mod text;
pub mod uri;
