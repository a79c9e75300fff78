//! Parsing of textual MAC addresses.
//!
//! A MAC address is written as hexadecimal digits, optionally grouped with
//! colon separators (`"aa:bb:cc:dd:ee:ff"`). Parsing removes every colon,
//! then requires exactly twelve hexadecimal digits, which decode pairwise
//! into six bytes. Any other length, or any non-hexadecimal character,
//! is a parse failure; there are no partial results.

use vstd::prelude::*;

verus! {

/// The sixteen hexadecimal digit characters, in either letter case.
pub open spec fn is_hex_digit(c: char) -> bool {
    ('0' as u32 <= c as u32 && c as u32 <= '9' as u32) || ('a' as u32 <= c as u32 && c as u32
        <= 'f' as u32) || ('A' as u32 <= c as u32 && c as u32 <= 'F' as u32)
}

/// The numeric value of one hexadecimal digit character.
pub open spec fn hex_digit_value(c: char) -> u8
    recommends
        is_hex_digit(c),
{
    if '0' as u32 <= c as u32 && c as u32 <= '9' as u32 {
        (c as u32 - '0' as u32) as u8
    } else if 'a' as u32 <= c as u32 && c as u32 <= 'f' as u32 {
        (c as u32 - 'a' as u32 + 10) as u8
    } else {
        (c as u32 - 'A' as u32 + 10) as u8
    }
}

/// The input with every colon character removed, order preserved.
pub open spec fn strip_colons(s: Seq<char>) -> Seq<char>
    decreases s.len(),
{
    if s.len() == 0 {
        Seq::empty()
    } else if s.last() == ':' {
        strip_colons(s.drop_last())
    } else {
        strip_colons(s.drop_last()).push(s.last())
    }
}

/// A parsable MAC address text: exactly twelve hexadecimal digits once the
/// colons are removed.
pub open spec fn valid_mac_text(s: Seq<char>) -> bool {
    strip_colons(s).len() == 12 && (forall|i: int|
        0 <= i < strip_colons(s).len() ==> is_hex_digit(#[trigger] strip_colons(s)[i]))
}

/// The byte written as the two hexadecimal digits `hi` then `lo`.
pub open spec fn byte_of_hex_pair(hi: char, lo: char) -> u8
    recommends
        is_hex_digit(hi),
        is_hex_digit(lo),
{
    (hex_digit_value(hi) * 16 + hex_digit_value(lo)) as u8
}

/// The six bytes encoded by a sequence of twelve hexadecimal digits.
pub open spec fn mac_bytes_of(h: Seq<char>) -> Seq<u8>
    recommends
        h.len() == 12,
{
    Seq::new(6, |i: int| byte_of_hex_pair(h[2 * i], h[2 * i + 1]))
}

/// The input was not a MAC address: its colon-filtered length was not
/// twelve, or it held a character that is not a hexadecimal digit.
#[derive(Debug, Clone, Copy, PartialEq, Eq)]
pub struct MacParseError;

/// The numeric value of a hexadecimal digit character, or `None` for any
/// other character.
fn classify_hex_digit(c: char) -> (r: Option<u8>)
    ensures
        r is Some <==> is_hex_digit(c),
        r matches Some(v) ==> v == hex_digit_value(c) && v < 16,
{
    let u = c as u32;
    if 48 <= u && u <= 57 {
        Some((u - 48) as u8)
    } else if 97 <= u && u <= 102 {
        Some((u - 97 + 10) as u8)
    } else if 65 <= u && u <= 70 {
        Some((u - 65 + 10) as u8)
    } else {
        None
    }
}

/// Parses a colon-separated (or colon-free) hexadecimal MAC address into
/// its six bytes.
///
/// Succeeds exactly on the inputs that hold twelve hexadecimal digits once
/// every colon is removed, and then returns exactly the six bytes those
/// digits spell; every other input is a [`MacParseError`].
pub fn parse_mac(s: &str) -> (r: Result<Vec<u8>, MacParseError>)
    ensures
        r is Ok <==> valid_mac_text(s@),
        r matches Ok(m) ==> m@ == mac_bytes_of(strip_colons(s@)),
{
    let n = s.unicode_len();
    let mut hex: Vec<char> = Vec::new();
    let mut i: usize = 0;
    while i < n
        invariant
            n == s@.len(),
            i <= n,
            hex@ == strip_colons(s@.subrange(0, i as int)),
        decreases n - i,
    {
        let c = s.get_char(i);
        if c != ':' {
            hex.push(c);
        }
        proof {
            assert(s@.subrange(0, i + 1).drop_last() =~= s@.subrange(0, i as int));
            assert(s@.subrange(0, i + 1).last() == s@[i as int]);
        }
        i = i + 1;
    }
    proof {
        assert(s@.subrange(0, n as int) =~= s@);
    }
    if hex.len() != 12 {
        return Err(MacParseError);
    }
    let mut out: Vec<u8> = Vec::new();
    let mut k: usize = 0;
    while k < 6
        invariant
            hex@ == strip_colons(s@),
            hex@.len() == 12,
            k <= 6,
            out@.len() == k,
            forall|j: int| 0 <= j < 2 * k ==> is_hex_digit(#[trigger] hex@[j]),
            forall|j: int|
                0 <= j < k ==> #[trigger] out@[j] == byte_of_hex_pair(hex@[2 * j], hex@[2 * j + 1]),
        decreases 6 - k,
    {
        let hi = match classify_hex_digit(hex[2 * k]) {
            Some(v) => v,
            None => {
                return Err(MacParseError);
            },
        };
        let lo = match classify_hex_digit(hex[2 * k + 1]) {
            Some(v) => v,
            None => {
                return Err(MacParseError);
            },
        };
        out.push(hi * 16 + lo);
        k = k + 1;
    }
    proof {
        assert(out@ =~= mac_bytes_of(strip_colons(s@)));
    }
    Ok(out)
}

} // verus!
