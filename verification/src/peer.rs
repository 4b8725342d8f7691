//! Self-certifying peer identifiers: the base58 text form is turned into
//! the identifier's byte sequence, and bytes back into base58 text for
//! diagnostic display. Both directions go through the peer-identity
//! library, which validates the identifier's own encoding.

use vstd::prelude::*;

use crate::errors::ConversionError;

verus! {

/// The byte sequence a well-formed base58 peer identifier denotes, as the
/// peer-identity library computes it from the text alone.
pub uninterp spec fn peer_id_bytes_of(s: Seq<char>) -> Seq<u8>;

/// The base58 text of a well-formed peer identifier byte sequence, as the
/// peer-identity library computes it from the bytes alone.
pub uninterp spec fn peer_id_base58_of(b: Seq<u8>) -> Seq<char>;

/// Whether a piece of text is a well-formed base58 peer identifier, as
/// the peer-identity library judges it from the text alone.
pub uninterp spec fn peer_id_text_wf(s: Seq<char>) -> bool;

/// Whether a byte sequence is a well-formed peer identifier, as the
/// peer-identity library judges it from the bytes alone.
pub uninterp spec fn peer_id_bytes_wf(b: Seq<u8>) -> bool;

/// Relies on `libp2p::PeerId`'s `FromStr` (base58 decoding followed by
/// validation of the identifier's own framing, accepting or rejecting on
/// the text alone) and on `PeerId::to_bytes`, which returns the
/// identifier's bytes. Both depend on the text alone.
#[verifier::external_body]
fn decode_peer_id(s: &str) -> (r: Option<Vec<u8>>)
    ensures
        r is Some <==> peer_id_text_wf(s@),
        r matches Some(v) ==> v@ == peer_id_bytes_of(s@),
{
    match s.parse::<libp2p::PeerId>() {
        Ok(id) => Some(id.to_bytes()),
        Err(_) => None,
    }
}

/// Relies on `libp2p::PeerId::from_bytes` (validation of the identifier's
/// own framing, accepting or rejecting on the bytes alone) and on
/// `PeerId::to_base58`, which base58-encodes the identifier's bytes. Both
/// depend on the bytes alone.
#[verifier::external_body]
fn encode_peer_id(b: &[u8]) -> (r: Option<String>)
    ensures
        r is Some <==> peer_id_bytes_wf(b@),
        r matches Some(s) ==> s@ == peer_id_base58_of(b@),
{
    match libp2p::PeerId::from_bytes(b) {
        Ok(id) => Some(id.to_base58()),
        Err(_) => None,
    }
}

/// Parses a base58 peer identifier into its byte sequence. Exactly the
/// text that is a validly self-describing identifier is accepted; all
/// other text fails with `InvalidIdentifier`, and with nothing else.
pub fn parse_peer_id(s: &str) -> (r: Result<Vec<u8>, ConversionError>)
    ensures
        r is Ok <==> peer_id_text_wf(s@),
        match r {
            Ok(v) => v@ == peer_id_bytes_of(s@),
            Err(e) => e == ConversionError::InvalidIdentifier,
        },
{
    match decode_peer_id(s) {
        Some(v) => Ok(v),
        None => Err(ConversionError::InvalidIdentifier),
    }
}

/// The base58 text of a peer identifier's byte sequence, for diagnostic
/// display; `None` exactly when the bytes are not a well-formed
/// identifier.
pub fn peer_id_base58(b: &[u8]) -> (r: Option<String>)
    ensures
        r is Some <==> peer_id_bytes_wf(b@),
        r matches Some(s) ==> s@ == peer_id_base58_of(b@),
{
    encode_peer_id(b)
}

} // verus!
