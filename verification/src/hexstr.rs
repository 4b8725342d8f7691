//! Hexadecimal text: what a well-formed hexadecimal string is, which bytes
//! it denotes, and the lower-case encoding of bytes back into text.

use vstd::prelude::*;
use vstd::string::{StrSliceExecFns, StringExecFns};

use crate::errors::ConversionError;

verus! {

/// A hexadecimal digit, upper or lower case.
pub open spec fn is_hex_digit(c: char) -> bool {
    (('0' as u32) <= (c as u32) && (c as u32) <= ('9' as u32)) || (('a' as u32) <= (c as u32) && (c
        as u32) <= ('f' as u32)) || (('A' as u32) <= (c as u32) && (c as u32) <= ('F' as u32))
}

/// The numeric value of a hexadecimal digit.
pub open spec fn hex_digit_val(c: char) -> nat {
    if ('0' as u32) <= (c as u32) && (c as u32) <= ('9' as u32) {
        ((c as u32) - ('0' as u32)) as nat
    } else if ('a' as u32) <= (c as u32) && (c as u32) <= ('f' as u32) {
        ((c as u32) - ('a' as u32) + 10) as nat
    } else if ('A' as u32) <= (c as u32) && (c as u32) <= ('F' as u32) {
        ((c as u32) - ('A' as u32) + 10) as nat
    } else {
        0
    }
}

/// A well-formed hexadecimal string: even length, hexadecimal digits throughout.
pub open spec fn is_hex_str(s: Seq<char>) -> bool {
    s.len() % 2 == 0 && (forall|i: int| 0 <= i < s.len() ==> is_hex_digit(#[trigger] s[i]))
}

/// The bytes a hexadecimal string denotes, two digits to a byte.
pub open spec fn hex_bytes(s: Seq<char>) -> Seq<u8> {
    Seq::new(s.len() / 2, |i: int| (hex_digit_val(s[2 * i]) * 16 + hex_digit_val(s[2 * i + 1])) as u8)
}

/// The lower-case digit character for a value below sixteen.
pub open spec fn hex_char_of(v: nat) -> char {
    if v == 0 {
        '0'
    } else if v == 1 {
        '1'
    } else if v == 2 {
        '2'
    } else if v == 3 {
        '3'
    } else if v == 4 {
        '4'
    } else if v == 5 {
        '5'
    } else if v == 6 {
        '6'
    } else if v == 7 {
        '7'
    } else if v == 8 {
        '8'
    } else if v == 9 {
        '9'
    } else if v == 10 {
        'a'
    } else if v == 11 {
        'b'
    } else if v == 12 {
        'c'
    } else if v == 13 {
        'd'
    } else if v == 14 {
        'e'
    } else {
        'f'
    }
}

/// The lower-case hexadecimal encoding of a byte sequence, two digits per byte.
pub open spec fn hex_str_of(b: Seq<u8>) -> Seq<char> {
    Seq::new(
        b.len() * 2,
        |i: int|
            if i % 2 == 0 {
                hex_char_of((b[i / 2] / 16) as nat)
            } else {
                hex_char_of((b[i / 2] % 16) as nat)
            },
    )
}

/// A digit character below sixteen is a hexadecimal digit and decodes to
/// the value it was made from.
pub proof fn lemma_hex_char_val(v: nat)
    requires
        v < 16,
    ensures
        is_hex_digit(hex_char_of(v)),
        hex_digit_val(hex_char_of(v)) == v,
{
}

/// Law: the hexadecimal encoding of any byte sequence is a well-formed
/// hexadecimal string, and decoding it gives back exactly the bytes that
/// were encoded.
pub proof fn lemma_hex_round_trip(b: Seq<u8>)
    ensures
        is_hex_str(hex_str_of(b)),
        hex_bytes(hex_str_of(b)) == b,
{
    let s = hex_str_of(b);
    assert forall|i: int| 0 <= i < s.len() implies is_hex_digit(#[trigger] s[i]) by {
        if i % 2 == 0 {
            lemma_hex_char_val((b[i / 2] / 16) as nat);
        } else {
            lemma_hex_char_val((b[i / 2] % 16) as nat);
        }
    }
    assert forall|i: int| 0 <= i < b.len() implies hex_bytes(s)[i] == b[i] by {
        lemma_hex_char_val((b[i] / 16) as nat);
        lemma_hex_char_val((b[i] % 16) as nat);
        assert(s[2 * i] == hex_char_of((b[i] / 16) as nat));
        assert(s[2 * i + 1] == hex_char_of((b[i] % 16) as nat));
        assert(b[i] / 16 * 16 + b[i] % 16 == b[i]);
    }
    assert(hex_bytes(s) =~= b);
}

/// Decodes one hexadecimal digit; every other character is rejected.
pub fn hex_digit_value(c: char) -> (r: Option<u8>)
    ensures
        match r {
            Some(v) => is_hex_digit(c) && v < 16 && v as nat == hex_digit_val(c),
            None => !is_hex_digit(c),
        },
{
    let u = c as u32;
    if 48 <= u && u <= 57 {
        Some((u - 48) as u8)
    } else if 97 <= u && u <= 102 {
        Some((u - 97 + 10) as u8)
    } else if 65 <= u && u <= 70 {
        Some((u - 65 + 10) as u8)
    } else {
        None
    }
}

/// Decodes hexadecimal text to bytes. Exactly the strings of even length
/// made of hexadecimal digits are accepted; every other string is a
/// `HexDecode` error.
pub fn hex_decode(s: &str) -> (r: Result<Vec<u8>, ConversionError>)
    ensures
        match r {
            Ok(v) => is_hex_str(s@) && v@ == hex_bytes(s@),
            Err(e) => e == ConversionError::HexDecode && !is_hex_str(s@),
        },
{
    let n = s.unicode_len();
    if n % 2 != 0 {
        return Err(ConversionError::HexDecode);
    }
    let half = n / 2;
    let mut out: Vec<u8> = Vec::new();
    let mut i: usize = 0;
    while i < half
        invariant
            n == s@.len(),
            n % 2 == 0,
            half == n / 2,
            0 <= i <= half,
            out@.len() == i,
            forall|k: int| 0 <= k < 2 * i ==> is_hex_digit(#[trigger] s@[k]),
            forall|k: int|
                0 <= k < i ==> out@[k] == (hex_digit_val(s@[2 * k]) * 16 + hex_digit_val(
                    s@[2 * k + 1],
                )) as u8,
        decreases half - i,
    {
        let c0 = s.get_char(2 * i);
        let c1 = s.get_char(2 * i + 1);
        let v0 = match hex_digit_value(c0) {
            Some(v) => v,
            None => {
                assert(!is_hex_digit(s@[2 * i as int]));
                return Err(ConversionError::HexDecode);
            },
        };
        let v1 = match hex_digit_value(c1) {
            Some(v) => v,
            None => {
                assert(!is_hex_digit(s@[2 * i as int + 1]));
                return Err(ConversionError::HexDecode);
            },
        };
        out.push(v0 * 16 + v1);
        i = i + 1;
    }
    proof {
        assert(out@ =~= hex_bytes(s@));
    }
    Ok(out)
}

/// The digit characters as one-character string slices.
fn hex_digit_str(v: u8) -> (r: &'static str)
    requires
        v < 16,
    ensures
        r@.len() == 1,
        r@[0] == hex_char_of(v as nat),
{
    proof {
        reveal_strlit("0");
        reveal_strlit("1");
        reveal_strlit("2");
        reveal_strlit("3");
        reveal_strlit("4");
        reveal_strlit("5");
        reveal_strlit("6");
        reveal_strlit("7");
        reveal_strlit("8");
        reveal_strlit("9");
        reveal_strlit("a");
        reveal_strlit("b");
        reveal_strlit("c");
        reveal_strlit("d");
        reveal_strlit("e");
        reveal_strlit("f");
    }
    match v {
        0 => "0",
        1 => "1",
        2 => "2",
        3 => "3",
        4 => "4",
        5 => "5",
        6 => "6",
        7 => "7",
        8 => "8",
        9 => "9",
        10 => "a",
        11 => "b",
        12 => "c",
        13 => "d",
        14 => "e",
        _ => "f",
    }
}

/// Encodes bytes as a lower-case hexadecimal string, two digits per byte.
pub fn hex_encode(b: &[u8]) -> (r: String)
    ensures
        r@ == hex_str_of(b@),
{
    let mut out = String::new();
    let mut i: usize = 0;
    while i < b.len()
        invariant
            0 <= i <= b@.len(),
            out@ == hex_str_of(b@.take(i as int)),
        decreases b@.len() - i,
    {
        let byte = b[i];
        out.append(hex_digit_str(byte / 16));
        out.append(hex_digit_str(byte % 16));
        proof {
            assert(out@ =~= hex_str_of(b@.take(i + 1 as int)));
        }
        i = i + 1;
    }
    proof {
        assert(b@.take(b@.len() as int) =~= b@);
    }
    out
}

} // verus!
