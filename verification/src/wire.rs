//! The self-describing public-key framing: a message of numbered, typed
//! fields. Field 1 is a base-128 varint carrying the key-type number; field
//! 2 is a length-delimited byte string carrying the raw key material. Other
//! fields are skipped by their wire type, and a field that never occurs
//! keeps its default (type number 0, empty key material).

use vstd::prelude::*;
use vstd::slice::{slice_subrange, slice_to_vec};

use crate::errors::ConversionError;

verus! {

/// The value and end position of the base-128 varint starting at `i`,
/// read through at most `budget` bytes. Each byte contributes seven low
/// bits, least significant first; a clear high bit ends the number. A
/// value that does not fit 64 bits is malformed.
pub open spec fn varint_from(s: Seq<u8>, i: int, budget: nat) -> Option<(nat, int)>
    decreases budget,
{
    if i < 0 || i >= s.len() || budget == 0 {
        None
    } else if s[i] < 128 {
        Some((s[i] as nat, i + 1))
    } else {
        match varint_from(s, i + 1, (budget - 1) as nat) {
            None => None,
            Some((v, j)) => if ((s[i] - 128) as nat) + 128 * v < 0x10000000000000000 {
                Some((((s[i] - 128) as nat) + 128 * v, j))
            } else {
                None
            },
        }
    }
}

/// A varint, read through at most the ten bytes a 64-bit value can need.
pub open spec fn varint_at(s: Seq<u8>, i: int) -> Option<(nat, int)> {
    varint_from(s, i, 10)
}

/// A decoded varint ends past where it began, within its byte budget,
/// and its value fits 64 bits.
pub proof fn lemma_varint_bounds(s: Seq<u8>, i: int, budget: nat)
    ensures
        varint_from(s, i, budget) matches Some((v, j)) ==> i < j <= s.len() && j - i <= budget && v
            < 0x10000000000000000,
    decreases budget,
{
    if i < 0 || i >= s.len() || budget == 0 {
    } else if s[i] < 128 {
    } else {
        lemma_varint_bounds(s, i + 1, (budget - 1) as nat);
    }
}

/// A varint ends within ten bytes of where it began, and its value fits
/// 64 bits.
pub proof fn lemma_varint_at_bounds(s: Seq<u8>, i: int)
    ensures
        varint_at(s, i) matches Some((v, j)) ==> i < j <= s.len() && j - i <= 10 && v
            < 0x10000000000000000,
{
    lemma_varint_bounds(s, i, 10);
}

/// What remains of the parse from position `i`, with `ty` and `data` the
/// field values collected so far: the declared type number and raw key
/// material of the whole message, or `None` if the framing is malformed.
/// A tag varint names field `tag / 8` with wire type `tag % 8`; fields
/// other than 1 and 2 are skipped (wire type 0: a varint; 1: eight bytes;
/// 2: a length-delimited byte string; 5: four bytes), and a later
/// occurrence of a field overwrites an earlier one.
pub open spec fn parse_fields(s: Seq<u8>, i: int, ty: nat, data: Seq<u8>) -> Option<(nat, Seq<u8>)>
    decreases s.len() - i,
        via parse_fields_decreases
{
    if i < 0 {
        None
    } else if i >= s.len() {
        Some((ty, data))
    } else {
        match varint_at(s, i) {
            None => None,
            Some((tag, j)) => {
                let wire = tag % 8;
                if wire == 0 {
                    match varint_at(s, j) {
                        None => None,
                        Some((v, k)) => if tag / 8 == 1 {
                            parse_fields(s, k, v, data)
                        } else {
                            parse_fields(s, k, ty, data)
                        },
                    }
                } else if wire == 2 {
                    match varint_at(s, j) {
                        None => None,
                        Some((len, k)) => if k + len <= s.len() {
                            if tag / 8 == 2 {
                                parse_fields(s, k + len, ty, s.subrange(k, k + len))
                            } else {
                                parse_fields(s, k + len, ty, data)
                            }
                        } else {
                            None
                        },
                    }
                } else if wire == 1 {
                    if j + 8 <= s.len() {
                        parse_fields(s, j + 8, ty, data)
                    } else {
                        None
                    }
                } else if wire == 5 {
                    if j + 4 <= s.len() {
                        parse_fields(s, j + 4, ty, data)
                    } else {
                        None
                    }
                } else {
                    None
                }
            },
        }
    }
}

#[via_fn]
proof fn parse_fields_decreases(s: Seq<u8>, i: int, ty: nat, data: Seq<u8>) {
    lemma_varint_at_bounds(s, i);
    if let Some((tag, j)) = varint_at(s, i) {
        lemma_varint_at_bounds(s, j);
    }
}

/// The declared type number and raw key material of a self-describing
/// public key, or `None` if the framing is malformed.
pub open spec fn parse_public_key(s: Seq<u8>) -> Option<(nat, Seq<u8>)> {
    parse_fields(s, 0, 0, Seq::empty())
}

/// Reads the base-128 varint starting at `i`, through at most `budget`
/// bytes.
fn read_varint(s: &[u8], i: usize, budget: usize) -> (r: Option<(u64, usize)>)
    requires
        budget <= 10,
    ensures
        match r {
            Some((v, j)) => varint_from(s@, i as int, budget as nat) == Some((v as nat, j as int)),
            None => varint_from(s@, i as int, budget as nat) is None,
        },
    decreases budget,
{
    if budget == 0 || i >= s.len() {
        return None;
    }
    let b = s[i];
    if b < 128 {
        return Some((b as u64, i + 1));
    }
    match read_varint(s, i + 1, budget - 1) {
        None => None,
        Some((v, j)) => {
            // the composed value fits 64 bits exactly when the tail value
            // is below 2^57, whatever the seven low bits of this byte hold
            if v < 0x200000000000000 {
                Some((((b - 128) as u64) + 128 * v, j))
            } else {
                None
            }
        },
    }
}

/// Parses the self-describing public key: the declared type number and the
/// raw key material. Exactly the byte strings whose framing is well formed
/// are accepted; every other byte string is a `KeyDecode` error.
pub fn decode_public_key(s: &[u8]) -> (r: Result<(u64, Vec<u8>), ConversionError>)
    ensures
        match r {
            Ok((ty, data)) => parse_public_key(s@) == Some((ty as nat, data@)),
            Err(e) => e == ConversionError::KeyDecode && parse_public_key(s@) is None,
        },
{
    let mut i: usize = 0;
    let mut ty: u64 = 0;
    let mut data: Vec<u8> = Vec::new();
    proof {
        assert(data@ =~= Seq::<u8>::empty());
    }
    loop
        invariant
            i <= s@.len(),
            parse_fields(s@, i as int, ty as nat, data@) == parse_public_key(s@),
        decreases s@.len() - i,
    {
        if i >= s.len() {
            return Ok((ty, data));
        }
        proof {
            lemma_varint_at_bounds(s@, i as int);
        }
        let (tag, j) = match read_varint(s, i, 10) {
            Some(p) => p,
            None => {
                return Err(ConversionError::KeyDecode);
            },
        };
        proof {
            lemma_varint_at_bounds(s@, j as int);
        }
        let wire = tag % 8;
        if wire == 0 {
            let (v, k) = match read_varint(s, j, 10) {
                Some(p) => p,
                None => {
                    return Err(ConversionError::KeyDecode);
                },
            };
            if tag / 8 == 1 {
                ty = v;
            }
            i = k;
        } else if wire == 2 {
            let (len, k) = match read_varint(s, j, 10) {
                Some(p) => p,
                None => {
                    return Err(ConversionError::KeyDecode);
                },
            };
            if len > (s.len() - k) as u64 {
                return Err(ConversionError::KeyDecode);
            }
            let end = k + (len as usize);
            if tag / 8 == 2 {
                data = slice_to_vec(slice_subrange(s, k, end));
            }
            i = end;
        } else if wire == 1 {
            if s.len() - j < 8 {
                return Err(ConversionError::KeyDecode);
            }
            i = j + 8;
        } else if wire == 5 {
            if s.len() - j < 4 {
                return Err(ConversionError::KeyDecode);
            }
            i = j + 4;
        } else {
            return Err(ConversionError::KeyDecode);
        }
    }
}

} // verus!
