//! Lower-case hexadecimal text for byte strings.
use vstd::prelude::*;

use crate::error::TecError;
use crate::text::push_char;

verus! {

/// Why a text is not hexadecimal.
#[derive(Debug, Clone, Copy, PartialEq, Eq, Structural)]
pub enum HexError {
    /// The text has an odd number of characters.
    OddLength,
    /// A character is no hexadecimal digit.
    InvalidDigit,
}

/// The lower-case digit of a value below 16.
pub open spec fn nibble_char(n: int) -> char {
    if n == 0 { '0' } else if n == 1 { '1' } else if n == 2 { '2' } else if n == 3 { '3' }
    else if n == 4 { '4' } else if n == 5 { '5' } else if n == 6 { '6' } else if n == 7 { '7' }
    else if n == 8 { '8' } else if n == 9 { '9' } else if n == 10 { 'a' } else if n == 11 { 'b' }
    else if n == 12 { 'c' } else if n == 13 { 'd' } else if n == 14 { 'e' } else { 'f' }
}

/// The value of a hexadecimal digit, in either case.
pub open spec fn digit_value(c: char) -> Option<int> {
    if '0' <= c && c <= '9' {
        Some(c as int - '0' as int)
    } else if 'a' <= c && c <= 'f' {
        Some(c as int - 'a' as int + 10)
    } else if 'A' <= c && c <= 'F' {
        Some(c as int - 'A' as int + 10)
    } else {
        None
    }
}

/// Two lower-case digits for each byte, the high half first.
pub open spec fn hex_of(b: Seq<u8>) -> Seq<char>
    decreases b.len(),
{
    if b.len() == 0 {
        Seq::empty()
    } else {
        hex_of(b.drop_last()) + seq![nibble_char(b.last() as int / 16), nibble_char(b.last() as int % 16)]
    }
}

/// The bytes that a hexadecimal text stands for; `None` for an odd length or
/// a character that is no digit.
pub open spec fn unhex(s: Seq<char>) -> Option<Seq<u8>>
    decreases s.len(),
{
    if s.len() == 0 {
        Some(Seq::empty())
    } else if s.len() == 1 {
        None
    } else {
        match (unhex(s.subrange(0, s.len() - 2)), digit_value(s[s.len() - 2]), digit_value(s[s.len() - 1])) {
            (Some(front), Some(hi), Some(lo)) => Some(front.push((hi * 16 + lo) as u8)),
            _ => None,
        }
    }
}

fn nibble(n: u8) -> (c: char)
    requires
        n < 16,
    ensures
        c == nibble_char(n as int),
{
    if n == 0 { '0' } else if n == 1 { '1' } else if n == 2 { '2' } else if n == 3 { '3' }
    else if n == 4 { '4' } else if n == 5 { '5' } else if n == 6 { '6' } else if n == 7 { '7' }
    else if n == 8 { '8' } else if n == 9 { '9' } else if n == 10 { 'a' } else if n == 11 { 'b' }
    else if n == 12 { 'c' } else if n == 13 { 'd' } else if n == 14 { 'e' } else { 'f' }
}

fn value_of(c: char) -> (r: Option<u8>)
    ensures
        match digit_value(c) {
            Some(v) => r == Some(v as u8) && 0 <= v < 16,
            None => r is None,
        },
{
    if '0' <= c && c <= '9' {
        Some((c as u32 - '0' as u32) as u8)
    } else if 'a' <= c && c <= 'f' {
        Some((c as u32 - 'a' as u32 + 10) as u8)
    } else if 'A' <= c && c <= 'F' {
        Some((c as u32 - 'A' as u32 + 10) as u8)
    } else {
        None
    }
}

/// The lower-case hexadecimal text of `bytes`; it cannot fail.
pub fn encode(bytes: &[u8]) -> (r: Result<String, TecError>)
    ensures
        r matches Ok(s) && s@ == hex_of(bytes@),
        r matches Ok(s) && s@.len() == 2 * bytes@.len(),
{
    proof {
        lemma_hex_len(bytes@);
    }
    let mut s = String::new();
    let mut i: usize = 0;
    while i < bytes.len()
        invariant
            i <= bytes@.len(),
            s@ == hex_of(bytes@.subrange(0, i as int)),
        decreases bytes@.len() - i,
    {
        let b = bytes[i];
        push_char(&mut s, nibble(b / 16));
        push_char(&mut s, nibble(b % 16));
        proof {
            let pre = bytes@.subrange(0, i + 1);
            assert(pre.drop_last() =~= bytes@.subrange(0, i as int));
        }
        i = i + 1;
    }
    assert(bytes@.subrange(0, bytes@.len() as int) =~= bytes@);
    Ok(s)
}

/// The bytes that a hexadecimal text stands for, with either case of digit.
pub fn decode(s: &str) -> (r: Result<Vec<u8>, TecError>)
    ensures
        match unhex(s@) {
            Some(b) => r matches Ok(v) && v@ == b,
            None => r is Err,
        },
{
    let n = s.unicode_len();
    if n % 2 == 1 {
        proof {
            lemma_unhex_odd(s@);
        }
        return Err(TecError::HexError(HexError::OddLength));
    }
    let mut out: Vec<u8> = Vec::new();
    let mut i: usize = 0;
    while i < n
        invariant
            n == s@.len(),
            n % 2 == 0,
            i <= n,
            i % 2 == 0,
            unhex(s@.subrange(0, i as int)) == Some(out@),
        decreases n - i,
    {
        let hi = value_of(s.get_char(i));
        let lo = value_of(s.get_char(i + 1));
        let ghost next = s@.subrange(0, i + 2);
        assert(next.subrange(0, next.len() - 2) =~= s@.subrange(0, i as int));
        match (hi, lo) {
            (Some(h), Some(l)) => {
                out.push(h * 16 + l);
            },
            _ => {
                proof {
                    lemma_unhex_prefix_none(s@, i + 2);
                }
                return Err(TecError::HexError(HexError::InvalidDigit));
            },
        }
        i = i + 2;
    }
    assert(s@.subrange(0, n as int) =~= s@);
    Ok(out)
}

proof fn lemma_unhex_odd(s: Seq<char>)
    requires
        s.len() % 2 == 1,
    ensures
        unhex(s) is None,
    decreases s.len(),
{
    if s.len() > 1 {
        lemma_unhex_odd(s.subrange(0, s.len() - 2));
    }
}

/// A text whose even-length prefix is no hexadecimal has no value itself.
proof fn lemma_unhex_prefix_none(s: Seq<char>, k: int)
    requires
        0 <= k <= s.len(),
        k % 2 == 0,
        s.len() % 2 == 0,
        unhex(s.subrange(0, k)) is None,
    ensures
        unhex(s) is None,
    decreases s.len() - k,
{
    if k < s.len() {
        let t = s.subrange(0, k + 2);
        assert(t.subrange(0, t.len() - 2) =~= s.subrange(0, k));
        lemma_unhex_prefix_none(s, k + 2);
    } else {
        assert(s.subrange(0, k) =~= s);
    }
}

/// The hexadecimal text of a byte string has two digits for each byte.
pub proof fn lemma_hex_len(b: Seq<u8>)
    ensures
        hex_of(b).len() == 2 * b.len(),
    decreases b.len(),
{
    if b.len() > 0 {
        lemma_hex_len(b.drop_last());
    }
}

/// Decoding the hexadecimal text of a byte string gives the bytes back.
pub proof fn lemma_hex_round_trip(b: Seq<u8>)
    ensures
        unhex(hex_of(b)) == Some(b),
    decreases b.len(),
{
    if b.len() > 0 {
        lemma_hex_round_trip(b.drop_last());
        let h = hex_of(b);
        let front = hex_of(b.drop_last());
        assert(h.subrange(0, h.len() - 2) =~= front);
        let x = b.last() as int;
        assert(digit_value(nibble_char(x / 16)) == Some(x / 16));
        assert(digit_value(nibble_char(x % 16)) == Some(x % 16));
        assert((x / 16) * 16 + x % 16 == x);
        assert(b.drop_last().push(b.last()) =~= b);
        assert(((x / 16) * 16 + x % 16) as u8 == b.last());
    }
}

} // verus!
