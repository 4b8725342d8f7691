//! Converts a self-certifying peer identifier into an enode endpoint URL.

pub mod args;
pub mod errors;
pub mod hexstr;
pub mod keys;
pub mod peer;
pub mod port;
pub mod url;
pub mod wire;

pub use args::resolve_args;
pub use errors::ConversionError;
pub use hexstr::{hex_decode, hex_encode};
pub use keys::KeyTag;
pub use peer::{parse_peer_id, peer_id_base58};
pub use port::parse_port;
pub use url::public_key_to_enode;
