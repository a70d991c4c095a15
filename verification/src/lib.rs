//! Session negotiation for remote code signing through an untrusted relay.
//!
//! A requester holds what is to be signed; a signer holds the key, often on
//! hardware that the requester cannot reach. The two meet on a relay server
//! that forwards their messages and is trusted with nothing.
//!
//! - [`session_negotiation`] is one peer's end of a session: a state machine
//!   that takes the relay's messages and the caller's operations, and refuses
//!   what its state does not allow.
//! - [`session_join_string`] is what the initiator hands to the joiner out of
//!   band, in a compact and in a PEM rendering.
//! - [`relay_message`] is the framing of the messages on the wire.
//! - [`public_key`] is a peer's public key, checked once.
//! - [`error`] is the one error type of them all.
//! - [`encoding`] holds the calls into the crates that do base64, PEM and
//!   JSON, with what is assumed of each.
//!
//! The library does no I/O and holds no private key. A caller connects to the
//! relay, sends what a session gives it and hands in what arrives; it opens
//! payloads through [`session_negotiation::PublicKeyPeerDecrypt`].

use vstd::prelude::*;
use vstd::string::*;

pub mod compare;
pub mod encoding;
pub mod error;
pub mod public_key;
pub mod relay_message;
pub mod session_join_string;
pub mod session_negotiation;

pub use error::RemoteSignError;

verus! {

/// URL of default server to use.
pub const DEFAULT_SERVER_URL: &'static str = "wss://ws.codesign.gregoryszorc.com/";

/// A function that receives session information.
pub type SessionInfoCallback = fn(sjs_base64: &str, sjs_pem: &str) -> Result<(), RemoteSignError>;

/// The URL of the relay to use: the configured one, or the default.
pub fn server_url(configured: Option<String>) -> (url: String)
    ensures
        url@ == (match configured {
            Some(chosen) => chosen@,
            None => DEFAULT_SERVER_URL@,
        }),
{
    match configured {
        Some(chosen) => chosen,
        None => String::from_str(DEFAULT_SERVER_URL),
    }
}

} // verus!
