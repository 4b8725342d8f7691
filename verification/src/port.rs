//! Decimal port numbers: exactly the digit strings whose value lies
//! between 1 and 65535 are accepted.

use vstd::prelude::*;
use vstd::string::StrSliceExecFns;

use crate::errors::ConversionError;

verus! {

/// A decimal digit.
pub open spec fn is_dec_digit(c: char) -> bool {
    ('0' as u32) <= (c as u32) && (c as u32) <= ('9' as u32)
}

/// The numeric value of a decimal digit.
pub open spec fn dec_digit_val(c: char) -> nat {
    if is_dec_digit(c) {
        ((c as u32) - ('0' as u32)) as nat
    } else {
        0
    }
}

/// The value of a decimal numeral, most significant digit first.
pub open spec fn dec_value(s: Seq<char>) -> nat
    decreases s.len(),
{
    if s.len() == 0 {
        0
    } else {
        dec_value(s.drop_last()) * 10 + dec_digit_val(s.last())
    }
}

/// A well-formed port string: at least one character, decimal digits
/// throughout, value between 1 and 65535.
pub open spec fn is_port_str(s: Seq<char>) -> bool {
    s.len() >= 1 && (forall|i: int| 0 <= i < s.len() ==> is_dec_digit(#[trigger] s[i])) && 1
        <= dec_value(s) <= 65535
}

/// Parses a port string. Exactly the digit strings whose value lies
/// between 1 and 65535 are accepted; every other string is an
/// `InvalidPort` error.
pub fn parse_port(s: &str) -> (r: Result<u16, ConversionError>)
    ensures
        match r {
            Ok(p) => is_port_str(s@) && p as nat == dec_value(s@) && 1 <= p <= 65535,
            Err(e) => e == ConversionError::InvalidPort && !is_port_str(s@),
        },
{
    let n = s.unicode_len();
    let mut val: u32 = 0;
    let mut i: usize = 0;
    while i < n
        invariant
            n == s@.len(),
            0 <= i <= n,
            forall|k: int| 0 <= k < i ==> is_dec_digit(#[trigger] s@[k]),
            dec_value(s@.take(i as int)) <= 65535 ==> val == dec_value(s@.take(i as int)),
            dec_value(s@.take(i as int)) > 65535 ==> val == 65536,
            val <= 65536,
        decreases n - i,
    {
        let c = s.get_char(i);
        let u = c as u32;
        if u < 48 || u > 57 {
            assert(!is_dec_digit(s@[i as int]));
            return Err(ConversionError::InvalidPort);
        }
        let d = u - 48;
        proof {
            assert(s@.take(i + 1 as int).drop_last() =~= s@.take(i as int));
            assert(s@.take(i + 1 as int).last() == s@[i as int]);
        }
        if val > 6553 || (val == 6553 && d > 5) {
            val = 65536;
        } else {
            val = val * 10 + d;
        }
        i = i + 1;
    }
    proof {
        assert(s@.take(n as int) =~= s@);
    }
    if val == 0 || val > 65535 {
        return Err(ConversionError::InvalidPort);
    }
    Ok(val as u16)
}

} // verus!
