//! The key families a self-describing public key can declare, and the
//! family-specific step from raw key material to the hexadecimal key
//! portion of an enode URL.

use vstd::prelude::*;
use vstd::slice::slice_subrange;

use crate::hexstr::{hex_encode, hex_str_of};

verus! {

/// The SEC1 uncompressed encoding of the secp256k1 curve point that a byte
/// string denotes, as the curve library computes it from the bytes alone.
pub uninterp spec fn secp_uncompressed_of(b: Seq<u8>) -> Seq<u8>;

/// Whether a byte string is a SEC1 point encoding the curve library
/// accepts. Acceptance is computed from the bytes alone, so it is the
/// same in every call.
pub uninterp spec fn secp_parses(b: Seq<u8>) -> bool;

/// A key family, as named by the type number of a self-describing key.
#[derive(Clone, Copy, Debug, PartialEq, Eq, Structural)]
pub enum KeyTag {
    Rsa,
    Ed25519,
    Secp256k1,
    Ecdsa,
    Unknown,
}

/// The family that a declared type number names. Numbers outside the
/// known assignment fall into `Unknown`.
pub open spec fn key_tag_of(v: nat) -> KeyTag {
    if v == 0 {
        KeyTag::Rsa
    } else if v == 1 {
        KeyTag::Ed25519
    } else if v == 2 {
        KeyTag::Secp256k1
    } else if v == 3 {
        KeyTag::Ecdsa
    } else {
        KeyTag::Unknown
    }
}

/// The display name of a key family.
pub open spec fn key_tag_name_chars(t: KeyTag) -> Seq<char> {
    match t {
        KeyTag::Rsa => "RSA"@,
        KeyTag::Ed25519 => "Ed25519"@,
        KeyTag::Secp256k1 => "Secp256k1"@,
        KeyTag::Ecdsa => "ECDSA"@,
        KeyTag::Unknown => "unknown"@,
    }
}

/// Maps a declared type number to its key family.
pub fn key_tag_from(v: u64) -> (r: KeyTag)
    ensures
        r == key_tag_of(v as nat),
{
    if v == 0 {
        KeyTag::Rsa
    } else if v == 1 {
        KeyTag::Ed25519
    } else if v == 2 {
        KeyTag::Secp256k1
    } else if v == 3 {
        KeyTag::Ecdsa
    } else {
        KeyTag::Unknown
    }
}

/// The display name of a key family.
pub fn key_tag_name(t: KeyTag) -> (r: &'static str)
    ensures
        r@ == key_tag_name_chars(t),
{
    match t {
        KeyTag::Rsa => "RSA",
        KeyTag::Ed25519 => "Ed25519",
        KeyTag::Secp256k1 => "Secp256k1",
        KeyTag::Ecdsa => "ECDSA",
        KeyTag::Unknown => "unknown",
    }
}

/// Relies on `libp2p::identity::secp256k1::PublicKey::try_from_bytes`,
/// which parses a SEC1-encoded secp256k1 point (and rejects bytes that
/// encode none; acceptance depends on the bytes alone), and on
/// `PublicKey::to_bytes_uncompressed`, which re-encodes the parsed point
/// in the SEC1 uncompressed form: 65 bytes, the fixed marker byte 0x04
/// first. Both depend on the bytes alone.
#[verifier::external_body]
fn secp256k1_uncompressed(data: &[u8]) -> (r: Option<Vec<u8>>)
    ensures
        r is Some <==> secp_parses(data@),
        r matches Some(v) ==> v@ == secp_uncompressed_of(data@) && v@.len() == 65 && v@[0] == 4,
{
    match libp2p::identity::secp256k1::PublicKey::try_from_bytes(data) {
        Ok(pk) => Some(pk.to_bytes_uncompressed().to_vec()),
        Err(_) => None,
    }
}

/// The key portion an uncompressed curve point yields: the marker byte is
/// checked to be the fixed SEC1 value and discarded, and the remaining 64
/// coordinate bytes are hex-encoded.
pub fn uncompressed_point_key_hex(point: &[u8]) -> (r: Option<String>)
    ensures
        match r {
            Some(s) => point@.len() == 65 && point@[0] == 4 && s@ == hex_str_of(point@.skip(1)),
            None => !(point@.len() == 65 && point@[0] == 4),
        },
{
    if point.len() == 65 && point[0] == 4 {
        let coords = slice_subrange(point, 1, 65);
        proof {
            assert(coords@ =~= point@.skip(1));
        }
        Some(hex_encode(coords))
    } else {
        None
    }
}

/// The key portion a secp256k1 key yields: the raw key material is handed
/// to the curve library for decompression, and the uncompressed point's 64
/// coordinate bytes are hex-encoded. `None` exactly when the curve
/// library rejects the bytes.
pub fn secp256k1_key_hex(data: &[u8]) -> (r: Option<String>)
    ensures
        r is Some <==> secp_parses(data@),
        r matches Some(s) ==> secp_uncompressed_of(data@).len() == 65 && s@ == hex_str_of(
            secp_uncompressed_of(data@).skip(1),
        ),
{
    match secp256k1_uncompressed(data) {
        Some(unc) => uncompressed_point_key_hex(unc.as_slice()),
        None => None,
    }
}

/// The key portion an Ed25519 key yields: its 32-byte canonical encoding,
/// hex-encoded directly. `None` when the key material is not 32 bytes.
pub fn ed25519_key_hex(data: &[u8]) -> (r: Option<String>)
    ensures
        match r {
            Some(s) => data@.len() == 32 && s@ == hex_str_of(data@),
            None => data@.len() != 32,
        },
{
    if data.len() == 32 {
        Some(hex_encode(data))
    } else {
        None
    }
}

} // verus!
