//! Server-level error type for the transport side.

use vstd::prelude::*;

verus! {

/// Errors of the transport and pairing surface.
#[derive(Debug)]
pub enum ServerError {
    /// An error of the relay client, carried as its message.
    Nostr(String),
    /// A relay connection failed.
    RelayConnection(String),
    /// Encrypting or decrypting a payload failed.
    Encryption(String),
    /// An event was structurally invalid.
    InvalidEvent(String),
}

impl ServerError {
    /// Human-readable message for this error.
    pub fn message(&self) -> (r: String)
        ensures
            match self {
                ServerError::Nostr(m) => r@ == "Nostr error: "@ + m@,
                ServerError::RelayConnection(m) => r@ == "Relay connection failed: "@ + m@,
                ServerError::Encryption(m) => r@ == "Encryption error: "@ + m@,
                ServerError::InvalidEvent(m) => r@ == "Invalid event: "@ + m@,
            },
    {
        let mut out: String;
        match self {
            ServerError::Nostr(m) => {
                out = String::from_str("Nostr error: ");
                out.append(m.as_str());
            },
            ServerError::RelayConnection(m) => {
                out = String::from_str("Relay connection failed: ");
                out.append(m.as_str());
            },
            ServerError::Encryption(m) => {
                out = String::from_str("Encryption error: ");
                out.append(m.as_str());
            },
            ServerError::InvalidEvent(m) => {
                out = String::from_str("Invalid event: ");
                out.append(m.as_str());
            },
        }
        out
    }
}

} // verus!
