//! Resolution of the positional arguments: the identifier is required,
//! the address defaults to 127.0.0.1, the port defaults to 4001 and must
//! be a number between 1 and 65535.

use vstd::prelude::*;
use vstd::string::StringExecFns;

use crate::errors::ConversionError;
use crate::port::{is_port_str, parse_port};

verus! {

/// Resolves the positional arguments to the identifier, address and port
/// strings a conversion runs on. The identifier is required (else
/// `Usage`); a missing address or port falls back to its default; the
/// resolved port must name a number between 1 and 65535 (else
/// `InvalidPort`).
pub fn resolve_args(identifier: Option<String>, address: Option<String>, port: Option<String>) -> (r:
    Result<(String, String, String), ConversionError>)
    ensures
        match r {
            Ok((id, a, p)) => (identifier matches Some(i) && id@ == i@) && match address {
                Some(x) => a@ == x@,
                None => a@ == "127.0.0.1"@,
            } && match port {
                Some(x) => p@ == x@,
                None => p@ == "4001"@,
            } && is_port_str(p@),
            Err(ConversionError::Usage) => identifier is None,
            Err(ConversionError::InvalidPort) => identifier is Some && !is_port_str(
                match port {
                    Some(x) => x@,
                    None => "4001"@,
                },
            ),
            Err(_) => false,
        },
{
    let id = match identifier {
        Some(i) => i,
        None => {
            return Err(ConversionError::Usage);
        },
    };
    let a = match address {
        Some(x) => x,
        None => String::from_str("127.0.0.1"),
    };
    let p = match port {
        Some(x) => x,
        None => String::from_str("4001"),
    };
    match parse_port(p.as_str()) {
        Ok(_) => Ok((id, a, p)),
        Err(e) => Err(e),
    }
}

} // verus!
