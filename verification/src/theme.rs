//! Colours of a theme written as hexadecimal, `#rrggbb` or `#rrggbbaa`.

use vstd::prelude::*;

verus! {

/// Why a hexadecimal number could not be read (the kinds `u32::from_str_radix` reports).
#[derive(Clone, Copy, Debug, PartialEq, Eq, Structural)]
pub enum HexError {
    /// Nothing to read.
    Empty,
    /// A character that is no hexadecimal digit.
    InvalidDigit,
    /// The number does not fit in 32 bits.
    PosOverflow,
}

/// The value of a hexadecimal digit, either case.
pub open spec fn hex_value(c: char) -> Option<nat> {
    if '0' <= c && c <= '9' {
        Some((c as nat - '0' as nat) as nat)
    } else if 'a' <= c && c <= 'f' {
        Some((c as nat - 'a' as nat + 10) as nat)
    } else if 'A' <= c && c <= 'F' {
        Some((c as nat - 'A' as nat + 10) as nat)
    } else {
        None
    }
}

/// Reads hexadecimal digits from left to right: the first character that is no digit, or the
/// first digit past which the number no longer fits in 32 bits, stops the reading.
pub open spec fn scan_hex(d: Seq<char>) -> Result<nat, HexError>
    decreases d.len(),
{
    if d.len() == 0 {
        Ok(0)
    } else {
        match scan_hex(d.drop_last()) {
            Err(e) => Err(e),
            Ok(v) => match hex_value(d.last()) {
                None => Err(HexError::InvalidDigit),
                Some(x) => if v * 16 + x > u32::MAX {
                    Err(HexError::PosOverflow)
                } else {
                    Ok(v * 16 + x)
                },
            },
        }
    }
}

/// A hexadecimal number as `u32::from_str_radix` reads it: an optional `+`, then digits.
pub open spec fn spec_parse_hex(s: Seq<char>) -> Result<nat, HexError> {
    if s.len() == 0 {
        Err(HexError::Empty)
    } else if s.len() == 1 && (s[0] == '+' || s[0] == '-') {
        Err(HexError::InvalidDigit)
    } else if s[0] == '+' {
        scan_hex(s.drop_first())
    } else {
        scan_hex(s)
    }
}

/// `s` without the `#` characters it starts with.
pub open spec fn without_hashes(s: Seq<char>) -> Seq<char>
    decreases s.len(),
{
    if s.len() > 0 && s[0] == '#' {
        without_hashes(s.drop_first())
    } else {
        s
    }
}

/// The red, green, blue and alpha channels written by `hex` (leading `#`s dropped): six
/// characters give the three colours and full opacity (255), any other length is read as
/// `rrggbbaa` (the top bytes of a shorter number being zero).
pub open spec fn spec_hex_to_rgba(hex: Seq<char>) -> Result<(u32, u32, u32, u32), HexError> {
    let s = without_hashes(hex);
    match spec_parse_hex(s) {
        Err(e) => Err(e),
        Ok(n) => if s.len() == 6 {
            Ok((((n / 0x10000) % 0x100) as u32, ((n / 0x100) % 0x100) as u32, (n % 0x100) as u32, 255))
        } else {
            Ok(
                (
                    ((n / 0x1000000) % 0x100) as u32,
                    ((n / 0x10000) % 0x100) as u32,
                    ((n / 0x100) % 0x100) as u32,
                    (n % 0x100) as u32,
                ),
            )
        },
    }
}

/// Reads the digits `d[start..]` of a hexadecimal number.
fn scan_digits(d: &Vec<char>, start: usize) -> (res: Result<u32, HexError>)
    requires
        start <= d.len(),
    ensures
        match scan_hex(d@.subrange(start as int, d@.len() as int)) {
            Ok(v) => res == Ok::<u32, HexError>(v as u32),
            Err(e) => res == Err::<u32, HexError>(e),
        },
{
    let ghost digits = d@.subrange(start as int, d@.len() as int);
    let mut v: u32 = 0;
    let mut i: usize = start;
    assert(digits.subrange(0, 0) =~= Seq::<char>::empty());
    while i < d.len()
        invariant
            start <= i <= d.len(),
            digits == d@.subrange(start as int, d@.len() as int),
            scan_hex(digits.subrange(0, i - start)) == Ok::<nat, HexError>(v as nat),
        decreases d.len() - i,
    {
        let c = d[i];
        let ghost prefix = digits.subrange(0, i + 1 - start);
        assert(prefix.drop_last() =~= digits.subrange(0, i - start));
        assert(prefix.last() == c);
        let x: u32 = if '0' <= c && c <= '9' {
            (c as u32) - ('0' as u32)
        } else if 'a' <= c && c <= 'f' {
            (c as u32) - ('a' as u32) + 10
        } else if 'A' <= c && c <= 'F' {
            (c as u32) - ('A' as u32) + 10
        } else {
            proof {
                lemma_scan_stops(digits, (i + 1 - start) as int);
            }
            return Err(HexError::InvalidDigit);
        };
        assert(hex_value(c) == Some(x as nat));
        if v > 0x0FFF_FFFF || v * 16 > 0xFFFF_FFFF - x {
            assert(v * 16 + x > u32::MAX) by (nonlinear_arith)
                requires
                    v > 0x0FFF_FFFF || v * 16 > 0xFFFF_FFFF - x,
            ;
            proof {
                lemma_scan_stops(digits, (i + 1 - start) as int);
            }
            return Err(HexError::PosOverflow);
        }
        v = v * 16 + x;
        i = i + 1;
    }
    assert(digits.subrange(0, d.len() - start) =~= digits);
    Ok(v)
}

/// Once the reading of a prefix of `d` stops, the reading of `d` stops there with it.
proof fn lemma_scan_stops(d: Seq<char>, k: int)
    requires
        0 <= k <= d.len(),
        scan_hex(d.subrange(0, k)) is Err,
    ensures
        scan_hex(d) == scan_hex(d.subrange(0, k)),
    decreases d.len() - k,
{
    if k < d.len() {
        assert(d.subrange(0, k + 1).drop_last() =~= d.subrange(0, k));
        lemma_scan_stops(d, k + 1);
    } else {
        assert(d.subrange(0, k) =~= d);
    }
}

/// Reads a hexadecimal number as `u32::from_str_radix` does.
pub fn parse_hex(s: &Vec<char>) -> (res: Result<u32, HexError>)
    ensures
        match spec_parse_hex(s@) {
            Ok(v) => res == Ok::<u32, HexError>(v as u32),
            Err(e) => res == Err::<u32, HexError>(e),
        },
{
    if s.len() == 0 {
        return Err(HexError::Empty);
    }
    if s.len() == 1 && (s[0] == '+' || s[0] == '-') {
        return Err(HexError::InvalidDigit);
    }
    if s[0] == '+' {
        assert(s@.subrange(1, s@.len() as int) =~= s@.drop_first());
        scan_digits(s, 1)
    } else {
        assert(s@.subrange(0, s@.len() as int) =~= s@);
        scan_digits(s, 0)
    }
}

/// The channels of a colour written in hexadecimal (see `spec_hex_to_rgba`).
pub fn hex_to_rgba(hex_str: &str) -> (res: Result<(u32, u32, u32, u32), HexError>)
    ensures
        res == spec_hex_to_rgba(hex_str@),
{
    let all = crate::text::chars_of(hex_str);
    let mut k: usize = 0;
    assert(all@.subrange(0, all@.len() as int) =~= all@);
    while k < all.len() && all[k] == '#'
        invariant
            k <= all.len(),
            without_hashes(all@.subrange(k as int, all@.len() as int)) == without_hashes(all@),
        decreases all.len() - k,
    {
        assert(all@.subrange(k as int, all@.len() as int).drop_first() =~= all@.subrange(
            k + 1,
            all@.len() as int,
        ));
        k = k + 1;
    }
    let ghost rest = all@.subrange(k as int, all@.len() as int);
    assert(without_hashes(rest) == rest);
    let s = crate::text::suffix_chars(&all, k);
    assert(s@ == rest);
    match parse_hex(&s) {
        Err(e) => Err(e),
        Ok(n) => {
            if s.len() == 6 {
                Ok(((n / 0x10000) % 0x100, (n / 0x100) % 0x100, n % 0x100, 255))
            } else {
                Ok(((n / 0x1000000) % 0x100, (n / 0x10000) % 0x100, (n / 0x100) % 0x100, n % 0x100))
            }
        },
    }
}

} // verus!
