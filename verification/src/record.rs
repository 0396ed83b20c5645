//! Reading the position and reference-allele fields of one record.

use vstd::prelude::*;
use vstd::string::*;

verus! {

/// The byte for adenine.
pub const BASE_A: u8 = 65;

/// The byte for cytosine.
pub const BASE_C: u8 = 67;

/// The byte for guanine.
pub const BASE_G: u8 = 71;

/// The byte for thymine.
pub const BASE_T: u8 = 84;

/// Whether `c` is one of the ten decimal digits.
pub open spec fn is_digit(c: char) -> bool {
    '0' <= c <= '9'
}

/// The value of a decimal digit; zero for any other character.
pub open spec fn digit_value(c: char) -> nat {
    if is_digit(c) {
        (c as u32 - '0' as u32) as nat
    } else {
        0
    }
}

/// Whether every character of `s` is a decimal digit.
pub open spec fn all_digits(s: Seq<char>) -> bool {
    forall|i: int| 0 <= i < s.len() ==> is_digit(#[trigger] s[i])
}

/// The number that a run of decimal digits writes.
pub open spec fn decimal_value(s: Seq<char>) -> nat
    decreases s.len(),
{
    if s.len() == 0 {
        0
    } else {
        decimal_value(s.drop_last()) * 10 + digit_value(s.last())
    }
}

/// The digits of a position field: the field without one leading plus sign.
pub open spec fn position_digits(s: Seq<char>) -> Seq<char> {
    if s.len() > 0 && s[0] == '+' {
        s.skip(1)
    } else {
        s
    }
}

/// The position that a field writes: one or more decimal digits, after an
/// optional plus sign, whose value fits in 64 bits. Anything else is no
/// position.
pub open spec fn spec_parse_position(s: Seq<char>) -> Option<u64> {
    let d = position_digits(s);
    if d.len() > 0 && all_digits(d) && decimal_value(d) <= u64::MAX {
        Some(decimal_value(d) as u64)
    } else {
        None
    }
}

/// The base that a reference-allele field names: a single letter among A, C,
/// G and T in either case, given in upper case. Longer fields, empty fields
/// and other letters name none.
pub open spec fn spec_allele(s: Seq<char>) -> Option<u8> {
    if s.len() != 1 {
        None
    } else if s[0] == 'A' || s[0] == 'a' {
        Some(BASE_A)
    } else if s[0] == 'C' || s[0] == 'c' {
        Some(BASE_C)
    } else if s[0] == 'G' || s[0] == 'g' {
        Some(BASE_G)
    } else if s[0] == 'T' || s[0] == 't' {
        Some(BASE_T)
    } else {
        None
    }
}

/// The upper-case form of an ASCII letter; any other byte unchanged.
pub open spec fn spec_upper(b: u8) -> u8 {
    if 97 <= b <= 122 {
        (b - 32) as u8
    } else {
        b
    }
}

/// Whether a fetched stretch of sequence is the single base `allele`, case
/// aside.
pub open spec fn spec_base_supports(fetched: Seq<u8>, allele: u8) -> bool {
    fetched.len() == 1 && spec_upper(fetched[0]) == allele
}

/// A longer run of digits never writes a smaller number than its prefix.
pub proof fn lemma_decimal_prefix(s: Seq<char>, k: int)
    requires
        0 <= k <= s.len(),
    ensures
        decimal_value(s.take(k)) <= decimal_value(s),
    decreases s.len() - k,
{
    if k == s.len() {
        assert(s.take(k) =~= s);
    } else {
        lemma_decimal_prefix(s, k + 1);
        assert(s.take(k + 1).drop_last() =~= s.take(k));
    }
}

/// Upper-cases one ASCII byte.
pub fn upper(b: u8) -> (u: u8)
    ensures
        u == spec_upper(b),
{
    if 97 <= b && b <= 122 {
        b - 32
    } else {
        b
    }
}

/// Decides whether what was fetched from a genome supports `allele`.
pub fn base_supports(fetched: &Vec<u8>, allele: u8) -> (hit: bool)
    ensures
        hit == spec_base_supports(fetched@, allele),
{
    fetched.len() == 1 && upper(fetched[0]) == allele
}

/// Upper-cases a reference-allele field and keeps it only if it is a single
/// unambiguous base.
pub fn normalize_allele(field: &String) -> (allele: Option<u8>)
    ensures
        allele == spec_allele(field@),
{
    let s = field.as_str();
    if s.unicode_len() != 1 {
        return None;
    }
    let c = s.get_char(0);
    if c == 'A' || c == 'a' {
        Some(BASE_A)
    } else if c == 'C' || c == 'c' {
        Some(BASE_C)
    } else if c == 'G' || c == 'g' {
        Some(BASE_G)
    } else if c == 'T' || c == 't' {
        Some(BASE_T)
    } else {
        None
    }
}

/// Reads a position field as a non-negative integer.
pub fn parse_position(field: &String) -> (position: Option<u64>)
    ensures
        position == spec_parse_position(field@),
{
    let s = field.as_str();
    if !s.is_ascii() {
        assert(!all_digits(position_digits(s@))) by {
            let i = choose|i: int| 0 <= i < s@.len() && !('\0' <= #[trigger] s@[i] <= '\u{7f}');
            if s@[0] == '+' {
                assert(position_digits(s@)[i - 1] == s@[i]);
            }
        }
        return None;
    }
    let n = s.unicode_len();
    let start: usize = if n > 0 && s.get_ascii(0) == 43 { 1 } else { 0 };
    let ghost d = position_digits(s@);
    if start == n {
        return None;
    }
    let mut acc: u64 = 0;
    let mut i: usize = start;
    while i < n
        invariant
            start <= i <= n,
            n == s@.len(),
            s.is_ascii(),
            s@ == field@,
            d == position_digits(field@),
            d == s@.skip(start as int),
            d.len() == n - start,
            all_digits(d.take(i - start)),
            acc == decimal_value(d.take(i - start)),
        decreases n - i,
    {
        let b = s.get_ascii(i);
        let ghost c = s@[i as int];
        assert(d[i - start] == c);
        if b < 48 || b > 57 {
            return None;
        }
        let v: u64 = (b - 48) as u64;
        proof {
            assert(d.take(i + 1 - start).drop_last() =~= d.take(i - start));
            lemma_decimal_prefix(d, i + 1 - start);
        }
        if acc > (u64::MAX - v) / 10 {
            return None;
        }
        acc = acc * 10 + v;
        assert forall|k: int| 0 <= k < i + 1 - start implies is_digit(
            #[trigger] d.take(i + 1 - start)[k],
        ) by {
            if k < i - start {
                assert(d.take(i - start)[k] == d[k]);
            }
        }
        i = i + 1;
    }
    assert(d.take(n - start) =~= d);
    Some(acc)
}

} // verus!
