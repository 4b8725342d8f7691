//! The closed set of errors a conversion can end in. Every failure is
//! terminal: nothing is retried, wrapped or recovered.

use vstd::prelude::*;
use vstd::string::StringExecFns;

use crate::keys::{key_tag_name, key_tag_name_chars, KeyTag};

verus! {

/// The ways a conversion can fail.
#[derive(Clone, Copy, Debug, PartialEq, Eq, Structural)]
pub enum ConversionError {
    /// The required identifier argument was missing.
    Usage,
    /// The port argument is not a number between 1 and 65535.
    InvalidPort,
    /// The identifier does not parse as a self-certifying peer identifier.
    InvalidIdentifier,
    /// The key text is not a well-formed hexadecimal string.
    HexDecode,
    /// The decoded bytes are not a well-formed self-describing public key.
    KeyDecode,
    /// The declared key family is outside the supported set.
    UnsupportedKeyType(KeyTag),
}

/// What `ConversionError::message` returns for each error.
pub open spec fn message_chars(e: ConversionError) -> Seq<char> {
    match e {
        ConversionError::Usage => "missing peer id argument"@,
        ConversionError::InvalidPort => "Port must be a valid number between 1-65535"@,
        ConversionError::InvalidIdentifier => "not a valid peer id"@,
        ConversionError::HexDecode => "Failed to decode hex string"@,
        ConversionError::KeyDecode => "Failed to decode public key"@,
        ConversionError::UnsupportedKeyType(t) => "Unsupported key type: "@ + key_tag_name_chars(
            t,
        ),
    }
}

impl ConversionError {
    /// A human-readable description of the error.
    pub fn message(&self) -> (r: String)
        ensures
            r@ == message_chars(*self),
    {
        match self {
            ConversionError::Usage => String::from_str("missing peer id argument"),
            ConversionError::InvalidPort => String::from_str(
                "Port must be a valid number between 1-65535",
            ),
            ConversionError::InvalidIdentifier => String::from_str("not a valid peer id"),
            ConversionError::HexDecode => String::from_str("Failed to decode hex string"),
            ConversionError::KeyDecode => String::from_str("Failed to decode public key"),
            ConversionError::UnsupportedKeyType(t) => {
                let mut m = String::from_str("Unsupported key type: ");
                m.append(key_tag_name(*t));
                m
            },
        }
    }
}

} // verus!
