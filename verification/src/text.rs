//! Verified text utilities: case-insensitive comparison, decimal parsing
//! and formatting, and hexadecimal encoding of byte strings.

use vstd::prelude::*;

verus! {

/// The Unicode lowercasing of a character sequence. The result depends on
/// the characters alone; its value is not axiomatized here.
pub uninterp spec fn lower_of(s: Seq<char>) -> Seq<char>;

/// Relies on str::to_lowercase: the Unicode lowercase of the string, a
/// function of its characters alone.
#[verifier::external_body]
fn lowercase(s: &str) -> (r: String)
    ensures
        r@ == lower_of(s@),
{
    s.to_lowercase()
}

/// Whether two strings are equal up to Unicode case, compared by their
/// lowercasings.
pub fn eq_ignore_case(a: &str, b: &str) -> (r: bool)
    ensures
        r == (lower_of(a@) == lower_of(b@)),
{
    let la = lowercase(a);
    let lb = lowercase(b);
    la == lb
}

/// Clones an optional string; the clone is the same value.
pub fn clone_opt_string(o: &Option<String>) -> (r: Option<String>)
    ensures
        r == *o,
{
    match o {
        Some(s) => Some(s.clone()),
        None => None,
    }
}

/// Whether two strings are equal, character for character.
pub fn eq_exact(a: &str, b: &str) -> (r: bool)
    ensures
        r == (a@ == b@),
{
    let a_len = a.unicode_len();
    let b_len = b.unicode_len();
    if a_len != b_len {
        return false;
    }
    let mut i: usize = 0;
    while i < a_len
        invariant
            a_len == a@.len(),
            b_len == b@.len(),
            a_len == b_len,
            i <= a_len,
            forall|j: int| 0 <= j < i ==> a@[j] == b@[j],
        decreases a_len - i,
    {
        if a.get_char(i) != b.get_char(i) {
            return false;
        }
        i += 1;
    }
    assert(a@ =~= b@);
    true
}

/// Whether a character is a decimal digit.
pub open spec fn is_digit(c: char) -> bool {
    '0' <= c && c <= '9'
}

/// The value of a decimal digit.
pub open spec fn digit_val(c: char) -> nat {
    ((c as u32) - 48) as nat
}

/// Whether every character of a sequence is a decimal digit.
pub open spec fn all_digits(s: Seq<char>) -> bool {
    forall|i: int| 0 <= i < s.len() ==> is_digit(s[i])
}

/// The numeric value of a sequence of decimal digits.
pub open spec fn dec_value(s: Seq<char>) -> nat
    decreases s.len(),
{
    if s.len() == 0 {
        0
    } else {
        dec_value(s.drop_last()) * 10 + digit_val(s.last())
    }
}

/// A digit prefix never exceeds the value of the whole digit string.
proof fn lemma_dec_value_prefix(s: Seq<char>, i: int)
    requires
        0 <= i <= s.len(),
    ensures
        dec_value(s.subrange(0, i)) <= dec_value(s),
    decreases s.len() - i,
{
    if i < s.len() {
        let t = s.subrange(0, i + 1);
        assert(t.drop_last() =~= s.subrange(0, i));
        assert(dec_value(s.subrange(0, i)) <= dec_value(t));
        lemma_dec_value_prefix(s, i + 1);
        assert(s.subrange(0, s.len() as int) =~= s);
    } else {
        assert(s.subrange(0, i) =~= s);
    }
}

/// Parses a string of decimal digits into an integer. Returns `None` when
/// the string is empty, holds a non-digit, or encodes a value above
/// `u64::MAX`.
pub fn parse_u64(s: &str) -> (r: Option<u64>)
    ensures
        match r {
            Some(v) => s@.len() > 0 && all_digits(s@) && dec_value(s@) == v,
            None => s@.len() == 0 || !all_digits(s@) || dec_value(s@) > u64::MAX,
        },
{
    let len = s.unicode_len();
    if len == 0 {
        return None;
    }
    let mut acc: u64 = 0;
    let mut i: usize = 0;
    while i < len
        invariant
            len == s@.len(),
            i <= len,
            forall|j: int| 0 <= j < i ==> is_digit(s@[j]),
            acc == dec_value(s@.subrange(0, i as int)),
        decreases len - i,
    {
        let c = s.get_char(i);
        if !('0' <= c && c <= '9') {
            return None;
        }
        let d: u64 = ((c as u32) - 48) as u64;
        assert(s@.subrange(0, i + 1).drop_last() =~= s@.subrange(0, i as int));
        let shifted = match acc.checked_mul(10) {
            Some(x) => x,
            None => {
                proof {
                    lemma_dec_value_prefix(s@, i + 1);
                }
                return None;
            },
        };
        acc = match shifted.checked_add(d) {
            Some(x) => x,
            None => {
                proof {
                    lemma_dec_value_prefix(s@, i + 1);
                }
                return None;
            },
        };
        i += 1;
    }
    assert(s@.subrange(0, len as int) =~= s@);
    Some(acc)
}

/// The decimal digit character for a value below ten.
pub open spec fn digit_char(n: nat) -> char {
    if n == 0 {
        '0'
    } else if n == 1 {
        '1'
    } else if n == 2 {
        '2'
    } else if n == 3 {
        '3'
    } else if n == 4 {
        '4'
    } else if n == 5 {
        '5'
    } else if n == 6 {
        '6'
    } else if n == 7 {
        '7'
    } else if n == 8 {
        '8'
    } else {
        '9'
    }
}

/// The decimal representation of an integer, most significant digit first.
pub open spec fn dec_string_of(n: nat) -> Seq<char>
    decreases n,
{
    if n < 10 {
        seq![digit_char(n)]
    } else {
        dec_string_of(n / 10).push(digit_char(n % 10))
    }
}

fn digit_str(d: u64) -> (r: &'static str)
    requires
        d < 10,
    ensures
        r@.len() == 1,
        r@[0] == digit_char(d as nat),
{
    proof {
        reveal_strlit("0");
        reveal_strlit("1");
        reveal_strlit("2");
        reveal_strlit("3");
        reveal_strlit("4");
        reveal_strlit("5");
        reveal_strlit("6");
        reveal_strlit("7");
        reveal_strlit("8");
        reveal_strlit("9");
    }
    match d {
        0 => "0",
        1 => "1",
        2 => "2",
        3 => "3",
        4 => "4",
        5 => "5",
        6 => "6",
        7 => "7",
        8 => "8",
        _ => "9",
    }
}

/// Formats an integer in decimal.
pub fn u64_to_string(n: u64) -> (r: String)
    ensures
        r@ == dec_string_of(n as nat),
    decreases n,
{
    if n < 10 {
        let s = String::from_str(digit_str(n));
        assert(s@ =~= dec_string_of(n as nat));
        s
    } else {
        assert(n / 10 < n && n / 10 >= 1) by (nonlinear_arith)
            requires
                n >= 10,
        ;
        let head = u64_to_string(n / 10);
        let r = head.concat(digit_str(n % 10));
        assert(n as nat / 10 == (n / 10) as nat && n as nat % 10 == (n % 10) as nat);
        assert(r@ =~= dec_string_of(n as nat));
        r
    }
}

/// The hexadecimal digit character for a value below sixteen.
pub open spec fn hex_char(n: nat) -> char {
    if n < 10 {
        digit_char(n)
    } else if n == 10 {
        'a'
    } else if n == 11 {
        'b'
    } else if n == 12 {
        'c'
    } else if n == 13 {
        'd'
    } else if n == 14 {
        'e'
    } else {
        'f'
    }
}

/// The lowercase hexadecimal encoding of a byte string: two digits per
/// byte, high nibble first.
pub open spec fn hex_of(bytes: Seq<u8>) -> Seq<char> {
    Seq::new(
        bytes.len() * 2,
        |i: int|
            if i % 2 == 0 {
                hex_char((bytes[i / 2] >> 4u8) as nat)
            } else {
                hex_char((bytes[i / 2] & 0xfu8) as nat)
            },
    )
}

fn hex_digit_str(d: u8) -> (r: &'static str)
    requires
        d < 16,
    ensures
        r@.len() == 1,
        r@[0] == hex_char(d as nat),
{
    proof {
        reveal_strlit("a");
        reveal_strlit("b");
        reveal_strlit("c");
        reveal_strlit("d");
        reveal_strlit("e");
        reveal_strlit("f");
    }
    if d < 10 {
        digit_str(d as u64)
    } else {
        match d {
            10 => "a",
            11 => "b",
            12 => "c",
            13 => "d",
            14 => "e",
            _ => "f",
        }
    }
}

/// Encodes a byte string in lowercase hexadecimal.
pub fn bytes_to_hex(bytes: &Vec<u8>) -> (r: String)
    ensures
        r@ == hex_of(bytes@),
{
    let mut out = String::new();
    let mut i: usize = 0;
    while i < bytes.len()
        invariant
            i <= bytes@.len(),
            out@ == hex_of(bytes@.subrange(0, i as int)),
        decreases bytes@.len() - i,
    {
        let b = bytes[i];
        let hi: u8 = b >> 4u8;
        let lo: u8 = b & 0xfu8;
        assert((b >> 4u8) < 16 && (b & 0xfu8) < 16) by (bit_vector);
        out.append(hex_digit_str(hi));
        out.append(hex_digit_str(lo));
        assert(out@ =~= hex_of(bytes@.subrange(0, i + 1)));
        i += 1;
    }
    assert(bytes@.subrange(0, bytes@.len() as int) =~= bytes@);
    out
}

} // verus!
