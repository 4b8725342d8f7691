//! The conversion itself: hexadecimal identifier text in, enode URL out,
//! with the exact shape of both pinned down.

use vstd::prelude::*;
use vstd::string::{StrSliceExecFns, StringExecFns};

use crate::errors::ConversionError;
use crate::hexstr::{hex_bytes, hex_decode, hex_str_of, is_hex_digit, is_hex_str};
use crate::keys::{
    ed25519_key_hex, key_tag_from, key_tag_of, secp256k1_key_hex, secp_parses,
    secp_uncompressed_of, KeyTag,
};
use crate::wire::{decode_public_key, parse_public_key};

verus! {

/// The identifier text with an optional leading `0x` removed.
pub open spec fn strip_hex_prefix(s: Seq<char>) -> Seq<char> {
    if s.len() >= 2 && s[0] == '0' && s[1] == 'x' {
        s.skip(2)
    } else {
        s
    }
}

/// The characters of an enode URL built from a key portion, an address
/// and a port.
pub open spec fn enode_url_chars(key: Seq<char>, ip: Seq<char>, port: Seq<char>) -> Seq<char> {
    "enode://"@ + key + "@"@ + ip + ":"@ + port + "?discport=30304"@
}

/// The key portion of an enode URL stands right after the eight
/// characters of `enode://`, and the whole URL adds 25 characters around
/// the three portions.
pub proof fn lemma_enode_url_key_portion(key: Seq<char>, ip: Seq<char>, port: Seq<char>)
    ensures
        enode_url_chars(key, ip, port).len() == key.len() + ip.len() + port.len() + 25,
        enode_url_chars(key, ip, port).subrange(8, 8 + key.len() as int) == key,
{
    reveal_strlit("enode://");
    reveal_strlit("@");
    reveal_strlit(":");
    reveal_strlit("?discport=30304");
    assert(enode_url_chars(key, ip, port).subrange(8, 8 + key.len() as int) =~= key);
}

/// Law: for a secp256k1 key, whose uncompressed point encoding holds 65
/// bytes, the key portion of the URL is exactly 128 hexadecimal
/// characters — 64 bytes, with no `0x` prefix, since no character of it
/// is an `x` — standing at positions 8 through 136.
pub proof fn lemma_secp_key_portion(unc: Seq<u8>, ip: Seq<char>, port: Seq<char>)
    requires
        unc.len() == 65,
    ensures
        hex_str_of(unc.skip(1)).len() == 128,
        forall|i: int| 0 <= i < 128 ==> is_hex_digit(#[trigger] hex_str_of(unc.skip(1))[i]),
        forall|i: int| 0 <= i < 128 ==> hex_str_of(unc.skip(1))[i] != 'x',
        enode_url_chars(hex_str_of(unc.skip(1)), ip, port).subrange(8, 136) == hex_str_of(
            unc.skip(1),
        ),
{
    crate::hexstr::lemma_hex_round_trip(unc.skip(1));
    lemma_enode_url_key_portion(hex_str_of(unc.skip(1)), ip, port);
}

/// Law: for an Ed25519 key, whose canonical encoding holds 32 bytes, the
/// key portion of the URL is exactly 64 hexadecimal characters, standing
/// at positions 8 through 72.
pub proof fn lemma_ed25519_key_portion(data: Seq<u8>, ip: Seq<char>, port: Seq<char>)
    requires
        data.len() == 32,
    ensures
        hex_str_of(data).len() == 64,
        forall|i: int| 0 <= i < 64 ==> is_hex_digit(#[trigger] hex_str_of(data)[i]),
        enode_url_chars(hex_str_of(data), ip, port).subrange(8, 72) == hex_str_of(data),
{
    crate::hexstr::lemma_hex_round_trip(data);
    lemma_enode_url_key_portion(hex_str_of(data), ip, port);
}

/// Law: hex-decoding the key portion of a produced URL gives back exactly
/// the key bytes that were embedded in it — for secp256k1 the uncompressed
/// point encoding less its leading format byte, for Ed25519 the raw key
/// material itself.
pub proof fn lemma_url_key_round_trip(key_bytes: Seq<u8>, ip: Seq<char>, port: Seq<char>)
    ensures
        hex_bytes(
            enode_url_chars(hex_str_of(key_bytes), ip, port).subrange(
                8,
                8 + 2 * key_bytes.len() as int,
            ),
        ) == key_bytes,
{
    crate::hexstr::lemma_hex_round_trip(key_bytes);
    lemma_enode_url_key_portion(hex_str_of(key_bytes), ip, port);
}

/// Removes a leading `0x`, if present.
fn strip_0x(s: &str) -> (r: &str)
    ensures
        r@ == strip_hex_prefix(s@),
{
    let n = s.unicode_len();
    if n >= 2 {
        let c0 = s.get_char(0);
        let c1 = s.get_char(1);
        if c0 == '0' && c1 == 'x' {
            let rest = s.substring_char(2, n);
            proof {
                assert(rest@ =~= s@.skip(2));
            }
            return rest;
        }
    }
    s
}

/// Formats the enode URL from its three portions.
fn format_enode_url(key: &str, ip: &str, port: &str) -> (r: String)
    ensures
        r@ == enode_url_chars(key@, ip@, port@),
{
    let mut out = String::from_str("enode://");
    out.append(key);
    out.append("@");
    out.append(ip);
    out.append(":");
    out.append(port);
    out.append("?discport=30304");
    proof {
        assert(out@ =~= enode_url_chars(key@, ip@, port@));
    }
    out
}

/// Converts a hex-encoded self-describing public key into an enode URL.
///
/// The text, less an optional `0x` prefix, must be well-formed hexadecimal
/// (else `HexDecode`); the bytes must be well-formed key framing (else
/// `KeyDecode`); the key family must be secp256k1, whose key material the
/// curve library decompresses to 64 coordinate bytes (a rejection is a
/// `KeyDecode` error), or Ed25519, whose 32-byte key material stands as it
/// is (else `UnsupportedKeyType`). The address and port are taken
/// verbatim; nothing validates them here.
pub fn public_key_to_enode(public_key_hex: &str, ip: &str, port: &str) -> (r: Result<
    String,
    ConversionError,
>)
    ensures
        ({
            let h = strip_hex_prefix(public_key_hex@);
            match r {
                Ok(url) => is_hex_str(h) && (parse_public_key(hex_bytes(h)) matches Some(
                    (ty, data),
                ) && match key_tag_of(ty) {
                    KeyTag::Secp256k1 => secp_parses(data) && secp_uncompressed_of(data).len()
                        == 65 && url@ == enode_url_chars(
                        hex_str_of(secp_uncompressed_of(data).skip(1)),
                        ip@,
                        port@,
                    ),
                    KeyTag::Ed25519 => data.len() == 32 && url@ == enode_url_chars(
                        hex_str_of(data),
                        ip@,
                        port@,
                    ),
                    _ => false,
                }),
                Err(ConversionError::HexDecode) => !is_hex_str(h),
                Err(ConversionError::KeyDecode) => is_hex_str(h) && (parse_public_key(hex_bytes(h))
                    is None || (parse_public_key(hex_bytes(h)) matches Some((ty, data))
                    && ((key_tag_of(ty) == KeyTag::Secp256k1 && !secp_parses(data)) || (key_tag_of(
                    ty,
                ) == KeyTag::Ed25519 && data.len() != 32)))),
                Err(ConversionError::UnsupportedKeyType(t)) => is_hex_str(h) && (parse_public_key(
                    hex_bytes(h),
                ) matches Some((ty, data)) && key_tag_of(ty) == t) && (t == KeyTag::Rsa || t
                    == KeyTag::Ecdsa || t == KeyTag::Unknown),
                Err(_) => false,
            }
        }),
{
    let clean = strip_0x(public_key_hex);
    let bytes = match hex_decode(clean) {
        Ok(b) => b,
        Err(e) => {
            return Err(e);
        },
    };
    let (ty, data) = match decode_public_key(bytes.as_slice()) {
        Ok(p) => p,
        Err(e) => {
            return Err(e);
        },
    };
    let tag = key_tag_from(ty);
    let key_hex: String = match tag {
        KeyTag::Secp256k1 => match secp256k1_key_hex(data.as_slice()) {
            Some(s) => s,
            None => {
                return Err(ConversionError::KeyDecode);
            },
        },
        KeyTag::Ed25519 => match ed25519_key_hex(data.as_slice()) {
            Some(s) => s,
            None => {
                return Err(ConversionError::KeyDecode);
            },
        },
        _ => {
            return Err(ConversionError::UnsupportedKeyType(tag));
        },
    };
    Ok(format_enode_url(key_hex.as_str(), ip, port))
}

} // verus!
