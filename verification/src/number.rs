//! Reading integers from text (as `str::parse` and `from_str_radix` do) and
//! writing them back as decimal or upper-case hexadecimal text.
use vstd::prelude::*;
use crate::text::{ascii_lower, eq_ignore_ascii_case_spec, trim, trim_chars, push_char};

verus! {

/// Why a text is not an integer of the asked type, as `std::num::IntErrorKind`
/// tells it.
#[derive(Debug, Clone, Copy, PartialEq, Eq, Structural)]
pub enum ParseIntError {
    /// The text is empty.
    Empty,
    /// A character is not a digit of the radix (a lone sign counts as one).
    InvalidDigit,
    /// The number is above the type's maximum.
    PosOverflow,
    /// The number is below the type's minimum.
    NegOverflow,
}

/// How reading a run of digits can fail.
#[derive(Debug, Clone, Copy, PartialEq, Eq, Structural)]
pub enum DigitsError {
    /// A character is not a digit of the radix.
    Invalid,
    /// The value read so far went past the limit.
    Overflow,
}

/// The value of `c` as a digit of `radix` (at most 36), letters of either case
/// standing for 10 and up.
pub open spec fn digit_value(c: char, radix: nat) -> Option<nat> {
    let u = c as u32;
    let d: int = if 48 <= u <= 57 {
        u - 48
    } else if 97 <= u <= 122 {
        u - 87
    } else if 65 <= u <= 90 {
        u - 55
    } else {
        36
    };
    if d < radix {
        Some(d as nat)
    } else {
        None
    }
}

/// Reads `digits` left to right in `radix`; stops at the first character
/// that is no digit (`Invalid`) or the first digit that takes the value past
/// `limit` (`Overflow`), whichever comes first.
pub open spec fn accumulate(digits: Seq<char>, radix: nat, limit: nat) -> Result<nat, DigitsError>
    decreases digits.len(),
{
    if digits.len() == 0 {
        Ok(0)
    } else {
        match accumulate(digits.drop_last(), radix, limit) {
            Err(e) => Err(e),
            Ok(v) => match digit_value(digits.last(), radix) {
                None => Err(DigitsError::Invalid),
                Some(d) => if v * radix + d > limit {
                    Err(DigitsError::Overflow)
                } else {
                    Ok(v * radix + d)
                },
            },
        }
    }
}

/// An integer read from `s` in `radix`, as `from_str_radix` reads it: an
/// optional `+` (or, when `signed`, `-`) and then digits only; no white space.
/// The value must lie in `-min_mag ..= max`.
pub open spec fn parse_int_spec(
    s: Seq<char>,
    radix: nat,
    signed: bool,
    max: nat,
    min_mag: nat,
) -> Result<int, ParseIntError> {
    if s.len() == 0 {
        Err(ParseIntError::Empty)
    } else if (s[0] == '+' || s[0] == '-') && s.len() == 1 {
        Err(ParseIntError::InvalidDigit)
    } else if s[0] == '-' && signed {
        match accumulate(s.drop_first(), radix, min_mag) {
            Ok(v) => Ok(-v),
            Err(DigitsError::Invalid) => Err(ParseIntError::InvalidDigit),
            Err(DigitsError::Overflow) => Err(ParseIntError::NegOverflow),
        }
    } else {
        let digits = if s[0] == '+' {
            s.drop_first()
        } else {
            s
        };
        match accumulate(digits, radix, max) {
            Ok(v) => Ok(v as int),
            Err(DigitsError::Invalid) => Err(ParseIntError::InvalidDigit),
            Err(DigitsError::Overflow) => Err(ParseIntError::PosOverflow),
        }
    }
}

/// `s.parse::<i32>()`.
pub open spec fn parse_i32_spec(s: Seq<char>) -> Result<int, ParseIntError> {
    parse_int_spec(s, 10, true, 0x7fff_ffff, 0x8000_0000)
}

/// `s.parse::<u32>()`.
pub open spec fn parse_u32_spec(s: Seq<char>) -> Result<int, ParseIntError> {
    parse_int_spec(s, 10, false, 0xffff_ffff, 0)
}

/// `s.parse::<u16>()`.
pub open spec fn parse_u16_spec(s: Seq<char>) -> Result<int, ParseIntError> {
    parse_int_spec(s, 10, false, 0xffff, 0)
}

/// `s.parse::<u8>()`.
pub open spec fn parse_u8_spec(s: Seq<char>) -> Result<int, ParseIntError> {
    parse_int_spec(s, 10, false, 0xff, 0)
}

/// `s.parse::<i64>()`.
pub open spec fn parse_i64_spec(s: Seq<char>) -> Result<int, ParseIntError> {
    parse_int_spec(s, 10, true, 0x7fff_ffff_ffff_ffff, 0x8000_0000_0000_0000)
}

/// An address written in decimal, or in hexadecimal after `0x` or `0X`, with
/// white space allowed around it.
pub open spec fn parse_address_spec(s: Seq<char>) -> Result<int, ParseIntError> {
    let t = trim(s);
    if t.len() >= 2 && t[0] == '0' && (t[1] == 'x' || t[1] == 'X') {
        parse_int_spec(t.skip(2), 16, false, usize::MAX as nat, 0)
    } else {
        parse_int_spec(t, 10, false, usize::MAX as nat, 0)
    }
}

/// A value that `accumulate` accepts stays within the limit.
pub proof fn lemma_accumulate_bound(digits: Seq<char>, radix: nat, limit: nat)
    ensures
        accumulate(digits, radix, limit) matches Ok(v) ==> v <= limit,
    decreases digits.len(),
{
    if digits.len() > 0 {
        lemma_accumulate_bound(digits.drop_last(), radix, limit);
    }
}

/// Once a prefix of the digits fails, the whole run fails the same way.
proof fn lemma_accumulate_err_prefix(digits: Seq<char>, k: int, radix: nat, limit: nat)
    requires
        0 <= k <= digits.len(),
        accumulate(digits.take(k), radix, limit) is Err,
    ensures
        accumulate(digits, radix, limit) == accumulate(digits.take(k), radix, limit),
    decreases digits.len() - k,
{
    if k < digits.len() {
        let next = digits.take(k + 1);
        assert(next.drop_last() =~= digits.take(k));
        lemma_accumulate_err_prefix(digits, k + 1, radix, limit);
    } else {
        assert(digits.take(k) =~= digits);
    }
}

/// The digit `c` stands for in `radix`, if any.
fn digit_of(c: char, radix: u32) -> (res: Option<u32>)
    requires
        radix <= 36,
    ensures
        match digit_value(c, radix as nat) {
            Some(d) => res == Some(d as u32),
            None => res is None,
        },
{
    let u = c as u32;
    let d: u32 = if 48 <= u && u <= 57 {
        u - 48
    } else if 97 <= u && u <= 122 {
        u - 87
    } else if 65 <= u && u <= 90 {
        u - 55
    } else {
        36
    };
    if d < radix {
        Some(d)
    } else {
        None
    }
}

/// Reads a run of digits (see `accumulate`); `Err(true)` is an overflow,
/// `Err(false)` a character that is no digit.
fn accumulate_digits(digits: &[char], radix: u32, limit: u128) -> (res: Result<u128, bool>)
    requires
        2 <= radix <= 36,
        limit < 0x1_0000_0000_0000_0000_0000_0000_0000,
    ensures
        match accumulate(digits@, radix as nat, limit as nat) {
            Ok(v) => res == Ok::<u128, bool>(v as u128),
            Err(DigitsError::Invalid) => res == Err::<u128, bool>(false),
            Err(DigitsError::Overflow) => res == Err::<u128, bool>(true),
        },
{
    let mut v: u128 = 0;
    let mut i: usize = 0;
    assert(digits@.take(0) =~= Seq::<char>::empty());
    while i < digits.len()
        invariant
            2 <= radix <= 36,
            limit < 0x1_0000_0000_0000_0000_0000_0000_0000,
            i <= digits.len(),
            accumulate(digits@.take(i as int), radix as nat, limit as nat) == Ok::<
                nat,
                DigitsError,
            >(v as nat),
            v <= limit,
        decreases digits.len() - i,
    {
        let ghost next = digits@.take(i as int + 1);
        assert(next.drop_last() =~= digits@.take(i as int));
        assert(next.last() == digits@[i as int]);
        match digit_of(digits[i], radix) {
            None => {
                proof {
                    lemma_accumulate_err_prefix(digits@, i as int + 1, radix as nat, limit as nat);
                }
                return Err(false);
            },
            Some(d) => {
                assert(v * (radix as u128) <= limit * 36) by (nonlinear_arith)
                    requires
                        v <= limit,
                        radix <= 36,
                ;
                let w = v * (radix as u128) + (d as u128);
                if w > limit {
                    proof {
                        lemma_accumulate_err_prefix(
                            digits@,
                            i as int + 1,
                            radix as nat,
                            limit as nat,
                        );
                    }
                    return Err(true);
                }
                v = w;
            },
        }
        i = i + 1;
    }
    assert(digits@.take(digits.len() as int) =~= digits@);
    Ok(v)
}

/// Reads an integer as `parse_int_spec` describes it.
pub fn parse_int(s: &[char], radix: u32, signed: bool, max: u128, min_mag: u128) -> (res: Result<
    i128,
    ParseIntError,
>)
    requires
        2 <= radix <= 36,
        max < 0x1_0000_0000_0000_0000_0000_0000_0000,
        min_mag < 0x1_0000_0000_0000_0000_0000_0000_0000,
    ensures
        match res {
            Ok(v) => parse_int_spec(s@, radix as nat, signed, max as nat, min_mag as nat) == Ok::<
                int,
                ParseIntError,
            >(v as int),
            Err(e) => parse_int_spec(s@, radix as nat, signed, max as nat, min_mag as nat) == Err::<
                int,
                ParseIntError,
            >(e),
        },
{
    if s.len() == 0 {
        return Err(ParseIntError::Empty);
    }
    if (s[0] == '+' || s[0] == '-') && s.len() == 1 {
        return Err(ParseIntError::InvalidDigit);
    }
    if s[0] == '-' && signed {
        let digits = &s[1..s.len()];
        assert(digits@ =~= s@.drop_first());
        match accumulate_digits(digits, radix, min_mag) {
            Ok(v) => Ok(0 - (v as i128)),
            Err(false) => Err(ParseIntError::InvalidDigit),
            Err(true) => Err(ParseIntError::NegOverflow),
        }
    } else {
        let digits = if s[0] == '+' {
            &s[1..s.len()]
        } else {
            s
        };
        assert(digits@ =~= (if s@[0] == '+' {
            s@.drop_first()
        } else {
            s@
        }));
        match accumulate_digits(digits, radix, max) {
            Ok(v) => Ok(v as i128),
            Err(false) => Err(ParseIntError::InvalidDigit),
            Err(true) => Err(ParseIntError::PosOverflow),
        }
    }
}

/// Bounds of what `parse_int_spec` accepts.
pub proof fn lemma_parse_int_bound(s: Seq<char>, radix: nat, signed: bool, max: nat, min_mag: nat)
    ensures
        parse_int_spec(s, radix, signed, max, min_mag) matches Ok(v) ==> -min_mag <= v <= max,
{
    if s.len() > 0 {
        lemma_accumulate_bound(s.drop_first(), radix, min_mag);
        lemma_accumulate_bound(s.drop_first(), radix, max);
        lemma_accumulate_bound(s, radix, max);
    }
}

/// `s.parse::<i32>()` on the characters `s`.
pub fn parse_i32(s: &[char]) -> (res: Result<i32, ParseIntError>)
    ensures
        match res {
            Ok(v) => parse_i32_spec(s@) == Ok::<int, ParseIntError>(v as int),
            Err(e) => parse_i32_spec(s@) == Err::<int, ParseIntError>(e),
        },
{
    proof {
        lemma_parse_int_bound(s@, 10, true, 0x7fff_ffff, 0x8000_0000);
    }
    match parse_int(s, 10, true, 0x7fff_ffff, 0x8000_0000) {
        Ok(v) => Ok(v as i32),
        Err(e) => Err(e),
    }
}

/// `s.parse::<u32>()` on the characters `s`.
pub fn parse_u32(s: &[char]) -> (res: Result<u32, ParseIntError>)
    ensures
        match res {
            Ok(v) => parse_u32_spec(s@) == Ok::<int, ParseIntError>(v as int),
            Err(e) => parse_u32_spec(s@) == Err::<int, ParseIntError>(e),
        },
{
    proof {
        lemma_parse_int_bound(s@, 10, false, 0xffff_ffff, 0);
    }
    match parse_int(s, 10, false, 0xffff_ffff, 0) {
        Ok(v) => Ok(v as u32),
        Err(e) => Err(e),
    }
}

/// `s.parse::<u16>()` on the characters `s`.
pub fn parse_u16(s: &[char]) -> (res: Result<u16, ParseIntError>)
    ensures
        match res {
            Ok(v) => parse_u16_spec(s@) == Ok::<int, ParseIntError>(v as int),
            Err(e) => parse_u16_spec(s@) == Err::<int, ParseIntError>(e),
        },
{
    proof {
        lemma_parse_int_bound(s@, 10, false, 0xffff, 0);
    }
    match parse_int(s, 10, false, 0xffff, 0) {
        Ok(v) => Ok(v as u16),
        Err(e) => Err(e),
    }
}

/// `s.parse::<u8>()` on the characters `s`.
pub fn parse_u8(s: &[char]) -> (res: Result<u8, ParseIntError>)
    ensures
        match res {
            Ok(v) => parse_u8_spec(s@) == Ok::<int, ParseIntError>(v as int),
            Err(e) => parse_u8_spec(s@) == Err::<int, ParseIntError>(e),
        },
{
    proof {
        lemma_parse_int_bound(s@, 10, false, 0xff, 0);
    }
    match parse_int(s, 10, false, 0xff, 0) {
        Ok(v) => Ok(v as u8),
        Err(e) => Err(e),
    }
}

/// `s.parse::<i64>()` on the characters `s`.
pub fn parse_i64(s: &[char]) -> (res: Result<i64, ParseIntError>)
    ensures
        match res {
            Ok(v) => parse_i64_spec(s@) == Ok::<int, ParseIntError>(v as int),
            Err(e) => parse_i64_spec(s@) == Err::<int, ParseIntError>(e),
        },
{
    proof {
        lemma_parse_int_bound(s@, 10, true, 0x7fff_ffff_ffff_ffff, 0x8000_0000_0000_0000);
    }
    match parse_int(s, 10, true, 0x7fff_ffff_ffff_ffff, 0x8000_0000_0000_0000) {
        Ok(v) => Ok(v as i64),
        Err(e) => Err(e),
    }
}

/// Reads an address (see `parse_address_spec`) from the characters `s`.
pub fn parse_address_chars(s: &[char]) -> (res: Result<usize, ParseIntError>)
    ensures
        match res {
            Ok(v) => parse_address_spec(s@) == Ok::<int, ParseIntError>(v as int),
            Err(e) => parse_address_spec(s@) == Err::<int, ParseIntError>(e),
        },
{
    let t = trim_chars(s);
    let max = usize::MAX as u128;
    if t.len() >= 2 && t[0] == '0' && (t[1] == 'x' || t[1] == 'X') {
        let digits = &t[2..t.len()];
        assert(digits@ =~= t@.skip(2));
        proof {
            lemma_parse_int_bound(digits@, 16, false, max as nat, 0);
        }
        match parse_int(digits, 16, false, max, 0) {
            Ok(v) => Ok(v as usize),
            Err(e) => Err(e),
        }
    } else {
        proof {
            lemma_parse_int_bound(t@, 10, false, max as nat, 0);
        }
        match parse_int(t, 10, false, max, 0) {
            Ok(v) => Ok(v as usize),
            Err(e) => Err(e),
        }
    }
}

/// Reads an address written in decimal, or in hexadecimal after `0x` or
/// `0X`; white space around it is ignored.
pub fn parse_address(s: &str) -> (res: Result<usize, ParseIntError>)
    ensures
        match res {
            Ok(v) => parse_address_spec(s@) == Ok::<int, ParseIntError>(v as int),
            Err(e) => parse_address_spec(s@) == Err::<int, ParseIntError>(e),
        },
{
    let cs = crate::text::to_chars(s);
    parse_address_chars(cs.as_slice())
}

// ---------------------------------------------------------------------------
// Writing numbers.

/// The character for the digit `d` (below 16): `0`-`9`, then `A`-`F`.
pub open spec fn digit_char(d: nat) -> char {
    (if d < 10 {
        (48 + d) as u8
    } else {
        (55 + d) as u8
    }) as char
}

/// `n` in decimal (`format!("{}", n)`).
pub open spec fn dec_digits(n: nat) -> Seq<char>
    decreases n,
{
    if n < 10 {
        seq![digit_char(n)]
    } else {
        dec_digits(n / 10).push(digit_char(n % 10))
    }
}

/// `n` in upper-case hexadecimal without prefix (`format!("{:X}", n)`).
pub open spec fn hex_digits(n: nat) -> Seq<char>
    decreases n,
{
    if n < 16 {
        seq![digit_char(n)]
    } else {
        hex_digits(n / 16).push(digit_char(n % 16))
    }
}

/// `v` in decimal with a `-` before a negative value (`format!("{}", v)`).
pub open spec fn int_text(v: int) -> Seq<char> {
    if v < 0 {
        seq!['-'] + dec_digits((-v) as nat)
    } else {
        dec_digits(v as nat)
    }
}

/// A byte as two upper-case hexadecimal digits (`format!("{:02X}", b)`).
pub open spec fn byte_hex(b: u8) -> Seq<char> {
    seq![digit_char((b / 16) as nat), digit_char((b % 16) as nat)]
}

fn digit_char_of(d: u64) -> (res: char)
    requires
        d < 16,
    ensures
        res == digit_char(d as nat),
{
    (if d < 10 {
        (48 + d) as u8
    } else {
        (55 + d) as u8
    }) as char
}

/// Appends `n` in decimal to `s`.
pub fn push_dec(s: &mut String, n: u64)
    ensures
        final(s)@ == old(s)@ + dec_digits(n as nat),
    decreases n,
{
    if n >= 10 {
        push_dec(s, n / 10);
    }
    push_char(s, digit_char_of(n % 10));
}

/// Appends `n` in upper-case hexadecimal to `s`.
pub fn push_hex(s: &mut String, n: u64)
    ensures
        final(s)@ == old(s)@ + hex_digits(n as nat),
    decreases n,
{
    if n >= 16 {
        push_hex(s, n / 16);
    }
    push_char(s, digit_char_of(n % 16));
}

/// Appends `v` in decimal to `s`.
pub fn push_int(s: &mut String, v: i64)
    ensures
        final(s)@ == old(s)@ + int_text(v as int),
{
    if v < 0 {
        push_char(s, '-');
        let m: u64 = if v == i64::MIN {
            0x8000_0000_0000_0000
        } else {
            (0 - v) as u64
        };
        push_dec(s, m);
        assert(final(s)@ =~= old(s)@ + int_text(v as int));
    } else {
        push_dec(s, v as u64);
    }
}

/// Appends the byte `b` as two upper-case hexadecimal digits to `s`.
pub fn push_byte_hex(s: &mut String, b: u8)
    ensures
        final(s)@ == old(s)@ + byte_hex(b),
{
    push_char(s, digit_char_of((b / 16) as u64));
    push_char(s, digit_char_of((b % 16) as u64));
    assert(final(s)@ =~= old(s)@ + byte_hex(b));
}


/// Whether `c` is one of the characters that `digit_char` gives.
pub open spec fn is_digit_char(c: char) -> bool {
    let u = c as u32;
    (48 <= u <= 57) || (65 <= u <= 70)
}

proof fn lemma_digit_char(d: nat, radix: nat)
    requires
        d < radix,
        radix <= 16,
    ensures
        digit_value(digit_char(d), radix) == Some(d),
        is_digit_char(digit_char(d)),
{
}

pub proof fn lemma_dec_digits(n: nat)
    ensures
        accumulate(dec_digits(n), 10, n) == Ok::<nat, DigitsError>(n),
        dec_digits(n).len() >= 1,
        forall|i: int| 0 <= i < dec_digits(n).len() ==> is_digit_char(#[trigger] dec_digits(n)[i]),
    decreases n,
{
    if n < 10 {
        lemma_digit_char(n, 10);
        let s = seq![digit_char(n)];
        assert(s.drop_last() =~= Seq::<char>::empty());
        assert(accumulate(Seq::<char>::empty(), 10, n) == Ok::<nat, DigitsError>(0));
        assert(s.last() == digit_char(n));
    } else {
        lemma_dec_digits(n / 10);
        lemma_digit_char(n % 10, 10);
        lemma_accumulate_limit(dec_digits(n / 10), 10, n / 10, n);
        let s = dec_digits(n);
        assert(s.drop_last() =~= dec_digits(n / 10));
        assert(s.last() == digit_char(n % 10));
        assert((n / 10) * 10 + n % 10 == n);
    }
}

proof fn lemma_hex_digits(n: nat)
    ensures
        accumulate(hex_digits(n), 16, n) == Ok::<nat, DigitsError>(n),
        hex_digits(n).len() >= 1,
        forall|i: int| 0 <= i < hex_digits(n).len() ==> is_digit_char(#[trigger] hex_digits(n)[i]),
    decreases n,
{
    if n < 16 {
        lemma_digit_char(n, 16);
        let s = seq![digit_char(n)];
        assert(s.drop_last() =~= Seq::<char>::empty());
        assert(accumulate(Seq::<char>::empty(), 16, n) == Ok::<nat, DigitsError>(0));
        assert(s.last() == digit_char(n));
    } else {
        lemma_hex_digits(n / 16);
        lemma_digit_char(n % 16, 16);
        lemma_accumulate_limit(hex_digits(n / 16), 16, n / 16, n);
        let s = hex_digits(n);
        assert(s.drop_last() =~= hex_digits(n / 16));
        assert(s.last() == digit_char(n % 16));
        assert((n / 16) * 16 + n % 16 == n);
    }
}

/// A run of digits that reads as `v` within a limit reads the same within
/// any higher limit.
proof fn lemma_accumulate_limit(digits: Seq<char>, radix: nat, limit: nat, higher: nat)
    requires
        limit <= higher,
        accumulate(digits, radix, limit) is Ok,
    ensures
        accumulate(digits, radix, higher) == accumulate(digits, radix, limit),
    decreases digits.len(),
{
    if digits.len() > 0 {
        lemma_accumulate_limit(digits.drop_last(), radix, limit, higher);
    }
}

/// Whether `c` is an ASCII letter or digit.
pub open spec fn is_ascii_alnum(c: char) -> bool {
    let u = c as u32;
    (48 <= u <= 57) || (65 <= u <= 90) || (97 <= u <= 122)
}

/// Text made of ASCII letters and digits is its own trim.
proof fn lemma_trim_unchanged(s: Seq<char>)
    requires
        s.len() >= 1,
        forall|i: int| 0 <= i < s.len() ==> is_ascii_alnum(#[trigger] s[i]),
    ensures
        trim(s) == s,
{
    assert(is_ascii_alnum(s[0]));
    assert(is_ascii_alnum(s[s.len() - 1]));
    assert(!crate::text::is_white_space_spec(s[0]));
    assert(!crate::text::is_white_space_spec(s.last()));
}

/// The character for the digit `d` (below 16): `0`-`9`, then `a`-`f`.
pub open spec fn digit_char_lower(d: nat) -> char {
    (if d < 10 {
        (48 + d) as u8
    } else {
        (87 + d) as u8
    }) as char
}

/// `n` in lower-case hexadecimal without prefix (`format!("{:x}", n)`).
pub open spec fn hex_digits_lower(n: nat) -> Seq<char>
    decreases n,
{
    if n < 16 {
        seq![digit_char_lower(n)]
    } else {
        hex_digits_lower(n / 16).push(digit_char_lower(n % 16))
    }
}

proof fn lemma_hex_digits_lower(n: nat)
    ensures
        accumulate(hex_digits_lower(n), 16, n) == Ok::<nat, DigitsError>(n),
        hex_digits_lower(n).len() >= 1,
        forall|i: int| 0 <= i < hex_digits_lower(n).len() ==> is_ascii_alnum(#[trigger] hex_digits_lower(n)[i]),
    decreases n,
{
    let c = digit_char_lower(n % 16);
    assert(digit_value(c, 16) == Some((n % 16) as nat));
    assert(is_ascii_alnum(c));
    if n < 16 {
        let s = seq![c];
        assert(s.drop_last() =~= Seq::<char>::empty());
        assert(accumulate(Seq::<char>::empty(), 16, n) == Ok::<nat, DigitsError>(0));
        assert(s.last() == c);
    } else {
        lemma_hex_digits_lower(n / 16);
        lemma_accumulate_limit(hex_digits_lower(n / 16), 16, n / 16, n);
        let s = hex_digits_lower(n);
        assert(s.drop_last() =~= hex_digits_lower(n / 16));
        assert(s.last() == c);
        assert((n / 16) * 16 + n % 16 == n);
    }
}

/// `0x` or `0X` followed by hexadecimal digits of value `a` reads as `a`.
proof fn lemma_prefixed_hex_reads(a: usize, x: char, h: Seq<char>)
    requires
        x == 'x' || x == 'X',
        accumulate(h, 16, a as nat) == Ok::<nat, DigitsError>(a as nat),
        h.len() >= 1,
        forall|i: int| 0 <= i < h.len() ==> is_ascii_alnum(#[trigger] h[i]),
    ensures
        parse_address_spec(seq!['0', x] + h) == Ok::<int, ParseIntError>(a as int),
{
    lemma_accumulate_limit(h, 16, a as nat, usize::MAX as nat);
    let t = seq!['0', x] + h;
    assert forall|i: int| 0 <= i < t.len() implies is_ascii_alnum(#[trigger] t[i]) by {
        if i >= 2 {
            assert(t[i] == h[i - 2]);
        }
    }
    lemma_trim_unchanged(t);
    assert(t.skip(2) =~= h);
    assert(is_ascii_alnum(h[0]));
}

/// Protocol law: an address written as `0x` or `0X` and hexadecimal digits
/// of either case (`format!("0x{:x}")`, `format!("0x{:X}")`,
/// `format!("0X{:X}")`, ...) reads back as the same address.
pub proof fn lemma_hex_address_roundtrip(a: usize)
    ensures
        parse_address_spec(seq!['0', 'x'] + hex_digits(a as nat)) == Ok::<int, ParseIntError>(a as int),
        parse_address_spec(seq!['0', 'X'] + hex_digits(a as nat)) == Ok::<int, ParseIntError>(a as int),
        parse_address_spec(seq!['0', 'x'] + hex_digits_lower(a as nat)) == Ok::<int, ParseIntError>(
            a as int,
        ),
        parse_address_spec(seq!['0', 'X'] + hex_digits_lower(a as nat)) == Ok::<int, ParseIntError>(
            a as int,
        ),
{
    lemma_hex_digits(a as nat);
    let h = hex_digits(a as nat);
    assert forall|i: int| 0 <= i < h.len() implies is_ascii_alnum(#[trigger] h[i]) by {
        assert(is_digit_char(h[i]));
    }
    lemma_prefixed_hex_reads(a, 'x', h);
    lemma_prefixed_hex_reads(a, 'X', h);
    lemma_hex_digits_lower(a as nat);
    lemma_prefixed_hex_reads(a, 'x', hex_digits_lower(a as nat));
    lemma_prefixed_hex_reads(a, 'X', hex_digits_lower(a as nat));
}

/// Protocol law: an address written in decimal reads back as the same
/// address.
pub proof fn lemma_decimal_address_roundtrip(a: usize)
    ensures
        parse_address_spec(dec_digits(a as nat)) == Ok::<int, ParseIntError>(a as int),
{
    let d = dec_digits(a as nat);
    lemma_dec_digits(a as nat);
    lemma_accumulate_limit(d, 10, a as nat, usize::MAX as nat);
    assert forall|i: int| 0 <= i < d.len() implies is_ascii_alnum(#[trigger] d[i]) by {
        assert(is_digit_char(d[i]));
    }
    lemma_trim_unchanged(d);
    assert(is_digit_char(d[0]));
    if d.len() >= 2 {
        assert(is_digit_char(d[1]));
    }
}

/// Protocol law: an `i32` written in decimal (as replies write entry types,
/// positions and sizes) reads back as the same `i32`.
pub proof fn lemma_i32_roundtrip(v: i32)
    ensures
        parse_i32_spec(int_text(v as int)) == Ok::<int, ParseIntError>(v as int),
{
    if v < 0 {
        let m = (-v) as nat;
        lemma_dec_digits(m);
        lemma_accumulate_limit(dec_digits(m), 10, m, 0x8000_0000);
        let s = int_text(v as int);
        assert(s.drop_first() =~= dec_digits(m));
    } else {
        let m = v as nat;
        lemma_dec_digits(m);
        lemma_accumulate_limit(dec_digits(m), 10, m, 0x7fff_ffff);
        assert(is_digit_char(dec_digits(m)[0]));
    }
}

/// Protocol law: a process id written in decimal (as the process id reply
/// writes it) reads back as the same id.
pub proof fn lemma_u32_roundtrip(v: u32)
    ensures
        parse_u32_spec(dec_digits(v as nat)) == Ok::<int, ParseIntError>(v as int),
{
    lemma_dec_digits(v as nat);
    lemma_accumulate_limit(dec_digits(v as nat), 10, v as nat, 0xffff_ffff);
    assert(is_digit_char(dec_digits(v as nat)[0]));
}

// ---------------------------------------------------------------------------
// Recognising floating-point text.

/// Whether `c` is an ASCII decimal digit.
pub open spec fn is_dec_digit(c: char) -> bool {
    '0' <= c <= '9'
}

/// `s` without one leading `+` or `-`.
pub open spec fn without_sign(s: Seq<char>) -> Seq<char> {
    if s.len() > 0 && (s[0] == '+' || s[0] == '-') {
        s.drop_first()
    } else {
        s
    }
}

/// Decimal digits with at most one `.` among them, and at least one digit:
/// `1`, `1.`, `.5`, `1.5`.
pub open spec fn mantissa_text(m: Seq<char>) -> bool {
    &&& forall|i: int| 0 <= i < m.len() ==> is_dec_digit(#[trigger] m[i]) || m[i] == '.'
    &&& forall|i: int, j: int|
        #![trigger m[i], m[j]]
        0 <= i < j < m.len() && m[i] == '.' ==> m[j] != '.'
    &&& exists|i: int| 0 <= i < m.len() && is_dec_digit(#[trigger] m[i])
}

/// An optional sign and then at least one decimal digit, and nothing else.
pub open spec fn exponent_text(x: Seq<char>) -> bool {
    let d = without_sign(x);
    &&& d.len() >= 1
    &&& forall|i: int| 0 <= i < d.len() ==> is_dec_digit(#[trigger] d[i])
}

/// A mantissa, then optionally `e` or `E` and an exponent.
pub open spec fn number_text(t: Seq<char>) -> bool {
    ||| mantissa_text(t)
    ||| exists|k: int|
        0 <= k < t.len() && (#[trigger] t[k] == 'e' || t[k] == 'E') && mantissa_text(t.take(k))
            && exponent_text(t.skip(k + 1))
}

/// Whether `s` is text that `str::parse::<f32>()` accepts: an optional sign,
/// then `inf`, `infinity` or `nan` in any ASCII case, or a decimal number
/// with an optional exponent. No white space is allowed.
pub open spec fn float_text_spec(s: Seq<char>) -> bool {
    let t = without_sign(s);
    ||| eq_ignore_ascii_case_spec(t, "inf"@)
    ||| eq_ignore_ascii_case_spec(t, "infinity"@)
    ||| eq_ignore_ascii_case_spec(t, "nan"@)
    ||| number_text(t)
}

fn is_dec_digit_char(c: char) -> (res: bool)
    ensures
        res == is_dec_digit(c),
{
    '0' <= c && c <= '9'
}

fn strip_sign(s: &[char]) -> (res: &[char])
    ensures
        res@ == without_sign(s@),
{
    if s.len() > 0 && (s[0] == '+' || s[0] == '-') {
        let r = &s[1..s.len()];
        assert(r@ =~= s@.drop_first());
        r
    } else {
        s
    }
}

/// Whether `m` is a mantissa (see `mantissa_text`).
fn is_mantissa(m: &[char]) -> (res: bool)
    ensures
        res == mantissa_text(m@),
{
    let mut dot: Option<usize> = None;
    let mut seen_digit = false;
    let mut i: usize = 0;
    while i < m.len()
        invariant
            i <= m.len(),
            forall|j: int| 0 <= j < i ==> is_dec_digit(#[trigger] m@[j]) || m@[j] == '.',
            dot is None ==> forall|j: int| 0 <= j < i ==> #[trigger] m@[j] != '.',
            dot matches Some(p) ==> p < i && m@[p as int] == '.' && forall|j: int|
                0 <= j < i && j != p ==> #[trigger] m@[j] != '.',
            seen_digit ==> exists|j: int| 0 <= j < i && is_dec_digit(#[trigger] m@[j]),
            !seen_digit ==> forall|j: int| 0 <= j < i ==> !is_dec_digit(#[trigger] m@[j]),
        decreases m.len() - i,
    {
        let c = m[i];
        if is_dec_digit_char(c) {
            seen_digit = true;
        } else if c == '.' {
            match dot {
                Some(p) => {
                    assert(m@[p as int] == '.' && m@[i as int] == '.');
                    return false;
                },
                None => {
                    dot = Some(i);
                },
            }
        } else {
            assert(!(is_dec_digit(m@[i as int]) || m@[i as int] == '.'));
            return false;
        }
        i = i + 1;
    }
    proof {
        assert forall|a: int, b: int| 0 <= a < b < m@.len() && m@[a] == '.' implies m@[b] != '.' by {
            if let Some(p) = dot {
                if a != p {
                    assert(m@[a] != '.');
                }
            }
        }
    }
    seen_digit
}

/// Whether `x` is an exponent (see `exponent_text`).
fn is_exponent(x: &[char]) -> (res: bool)
    ensures
        res == exponent_text(x@),
{
    let d = strip_sign(x);
    if d.len() == 0 {
        return false;
    }
    let mut i: usize = 0;
    while i < d.len()
        invariant
            i <= d.len(),
            d@ == without_sign(x@),
            forall|j: int| 0 <= j < i ==> is_dec_digit(#[trigger] d@[j]),
        decreases d.len() - i,
    {
        if !is_dec_digit_char(d[i]) {
            assert(!is_dec_digit(d@[i as int]));
            return false;
        }
        i = i + 1;
    }
    true
}

/// Whether `t` is a number with an optional exponent (see `number_text`).
fn is_number(t: &[char]) -> (res: bool)
    ensures
        res == number_text(t@),
{
    let mut k: usize = 0;
    while k < t.len()
        invariant
            k <= t.len(),
            forall|j: int| 0 <= j < k ==> #[trigger] t@[j] != 'e' && t@[j] != 'E',
        ensures
            k <= t.len(),
            forall|j: int| 0 <= j < k ==> #[trigger] t@[j] != 'e' && t@[j] != 'E',
            k < t.len() ==> t@[k as int] == 'e' || t@[k as int] == 'E',
        decreases t.len() - k,
    {
        if t[k] == 'e' || t[k] == 'E' {
            break;
        }
        k = k + 1;
    }
    if k == t.len() {
        return is_mantissa(t);
    }
    let m = &t[0..k];
    let x = &t[k + 1..t.len()];
    assert(m@ =~= t@.take(k as int));
    assert(x@ =~= t@.skip(k as int + 1));
    let res = is_mantissa(m) && is_exponent(x);
    proof {
        if !mantissa_text(t@) && number_text(t@) {
            let k2 = choose|k2: int|
                0 <= k2 < t@.len() && (#[trigger] t@[k2] == 'e' || t@[k2] == 'E') && mantissa_text(
                    t@.take(k2),
                ) && exponent_text(t@.skip(k2 + 1));
            if k2 > k {
                assert(t@.take(k2)[k as int] == t@[k as int]);
            } else if k2 < k {
                assert(t@[k2] == 'e' || t@[k2] == 'E');
            }
            assert(k2 == k);
        }
        if mantissa_text(t@) {
            assert(t@[k as int] == 'e' || t@[k as int] == 'E');
        }
    }
    res
}

/// Whether `s` is text that `str::parse::<f32>()` accepts (see
/// `float_text_spec`).
pub fn is_float_text(s: &[char]) -> (res: bool)
    ensures
        res == float_text_spec(s@),
{
    let t = strip_sign(s);
    let inf = crate::text::to_chars("inf");
    let infinity = crate::text::to_chars("infinity");
    let nan = crate::text::to_chars("nan");
    crate::text::eq_ignore_ascii_case(t, inf.as_slice())
        || crate::text::eq_ignore_ascii_case(t, infinity.as_slice())
        || crate::text::eq_ignore_ascii_case(t, nan.as_slice())
        || is_number(t)
}

/// Whether every character of `ds` is a digit of `radix`.
pub open spec fn all_digits(ds: Seq<char>, radix: nat) -> bool {
    forall|i: int| 0 <= i < ds.len() ==> #[trigger] digit_value(ds[i], radix) is Some
}

/// The value of the digits `ds` in `radix`, most significant first (a
/// character that is no digit counts as 0).
pub open spec fn digits_value(ds: Seq<char>, radix: nat) -> nat
    decreases ds.len(),
{
    if ds.len() == 0 {
        0
    } else {
        let d = match digit_value(ds.last(), radix) {
            Some(d) => d,
            None => 0,
        };
        digits_value(ds.drop_last(), radix) * radix + d
    }
}

/// A run of characters reads, within `limit`, exactly when all of them are
/// digits and their value is at most `limit`; it then reads as that value.
pub proof fn lemma_accumulate_exact(ds: Seq<char>, radix: nat, limit: nat)
    requires
        radix >= 1,
    ensures
        accumulate(ds, radix, limit) is Ok <==> (all_digits(ds, radix) && digits_value(ds, radix) <= limit),
        accumulate(ds, radix, limit) is Ok ==> accumulate(ds, radix, limit) == Ok::<nat, DigitsError>(
            digits_value(ds, radix),
        ),
    decreases ds.len(),
{
    if ds.len() > 0 {
        let dl = ds.drop_last();
        lemma_accumulate_exact(dl, radix, limit);
        assert(all_digits(ds, radix) <==> (all_digits(dl, radix) && digit_value(ds.last(), radix) is Some)) by {
            if all_digits(ds, radix) {
                assert forall|i: int| 0 <= i < dl.len() implies #[trigger] digit_value(dl[i], radix) is Some by {
                    assert(dl[i] == ds[i]);
                }
                assert(ds.last() == ds[ds.len() - 1]);
            }
            if all_digits(dl, radix) && digit_value(ds.last(), radix) is Some {
                assert forall|i: int| 0 <= i < ds.len() implies #[trigger] digit_value(ds[i], radix) is Some by {
                    if i < ds.len() - 1 {
                        assert(dl[i] == ds[i]);
                    }
                }
            }
        }
        let v = digits_value(dl, radix);
        let d: nat = match digit_value(ds.last(), radix) {
            Some(d) => d,
            None => 0,
        };
        assert(v * radix >= v) by (nonlinear_arith)
            requires
                radix >= 1,
        ;
        assert(digits_value(ds, radix) == v * radix + d);
    }
}

/// Address law: after trimming white space, text is an address exactly when
/// it is `0x` or `0X` followed by hexadecimal digits, or (not starting so)
/// decimal digits, in either case after one optional `+`, with at least one
/// digit and a value that fits in `usize`; it reads as the value of those
/// digits.
pub proof fn lemma_parse_address_cases(s: Seq<char>)
    ensures
        ({
            let t = trim(s);
            let hex = t.len() >= 2 && t[0] == '0' && (t[1] == 'x' || t[1] == 'X');
            let body = if hex {
                t.skip(2)
            } else {
                t
            };
            let ds = if body.len() > 0 && body[0] == '+' {
                body.drop_first()
            } else {
                body
            };
            let radix: nat = if hex {
                16
            } else {
                10
            };
            &&& parse_address_spec(s) is Ok <==> (ds.len() >= 1 && all_digits(ds, radix)
                && digits_value(ds, radix) <= usize::MAX)
            &&& parse_address_spec(s) is Ok ==> parse_address_spec(s) == Ok::<int, ParseIntError>(
                digits_value(ds, radix) as int,
            )
        }),
{
    let t = trim(s);
    let hex = t.len() >= 2 && t[0] == '0' && (t[1] == 'x' || t[1] == 'X');
    let body = if hex {
        t.skip(2)
    } else {
        t
    };
    let ds = if body.len() > 0 && body[0] == '+' {
        body.drop_first()
    } else {
        body
    };
    let radix: nat = if hex {
        16
    } else {
        10
    };
    lemma_accumulate_exact(ds, radix, usize::MAX as nat);
    if body.len() > 0 && body[0] == '-' {
        assert(digit_value(ds[0], radix) is None);
        assert(!all_digits(ds, radix));
    }
}

/// Whether every character of `d` is a decimal digit.
pub open spec fn all_dec_digits(d: Seq<char>) -> bool {
    forall|i: int| 0 <= i < d.len() ==> is_dec_digit(#[trigger] d[i])
}

/// Digits with one `.` somewhere among them, and at least one digit, are a
/// mantissa.
proof fn lemma_point_mantissa(a: Seq<char>, b: Seq<char>)
    requires
        all_dec_digits(a),
        all_dec_digits(b),
        a.len() + b.len() >= 1,
    ensures
        mantissa_text(a + seq!['.'] + b),
{
    let m = a + seq!['.'] + b;
    assert forall|i: int| 0 <= i < m.len() implies is_dec_digit(#[trigger] m[i]) || m[i] == '.' by {
        if i < a.len() {
            assert(m[i] == a[i]);
        } else if i > a.len() {
            assert(m[i] == b[i - a.len() - 1]);
        }
    }
    assert forall|i: int, j: int|
        #![trigger m[i], m[j]]
        0 <= i < j < m.len() && m[i] == '.' implies m[j] != '.' by {
        if i < a.len() {
            assert(m[i] == a[i]);
        } else if i > a.len() {
            assert(m[i] == b[i - a.len() - 1]);
        }
        if j > a.len() {
            assert(m[j] == b[j - a.len() - 1]);
        }
    }
    if a.len() >= 1 {
        assert(m[0] == a[0]);
        assert(is_dec_digit(m[0]));
    } else {
        assert(m[a.len() as int + 1] == b[0]);
        assert(is_dec_digit(m[a.len() as int + 1]));
    }
}

/// A nonempty run of digits is a mantissa.
proof fn lemma_digits_mantissa(a: Seq<char>)
    requires
        all_dec_digits(a),
        a.len() >= 1,
    ensures
        mantissa_text(a),
{
    assert(is_dec_digit(a[0]));
}

/// A mantissa followed by `e` or `E` and an exponent is a number.
proof fn lemma_number_with_exponent(m: Seq<char>, e: char, x: Seq<char>)
    requires
        mantissa_text(m),
        e == 'e' || e == 'E',
        exponent_text(x),
    ensures
        number_text(m + seq![e] + x),
{
    let t = m + seq![e] + x;
    let k = m.len() as int;
    assert(t.take(k) =~= m);
    assert(t.skip(k + 1) =~= x);
    assert(t[k] == e);
}

/// Float law: as `str::parse::<f32>()` accepts them, every nonempty run of
/// decimal digits is floating-point text, with or without a sign; so are
/// digits with one `.` among them (`1.`, `.5`, `1.5`), each of these
/// followed by `e` or `E`, an optional sign and digits, and `inf`,
/// `infinity` and `nan` in any ASCII case, with or without a sign. Empty
/// text, a lone `.`, a lone sign and a lone exponent are not.
pub proof fn lemma_float_text_forms(a: Seq<char>, b: Seq<char>, x: Seq<char>, w: Seq<char>)
    requires
        all_dec_digits(a),
        all_dec_digits(b),
        all_dec_digits(x),
    ensures
        a.len() >= 1 ==> float_text_spec(a) && float_text_spec(seq!['+'] + a) && float_text_spec(
            seq!['-'] + a,
        ),
        a.len() + b.len() >= 1 ==> float_text_spec(a + seq!['.'] + b) && float_text_spec(
            seq!['-'] + (a + seq!['.'] + b),
        ),
        a.len() >= 1 && x.len() >= 1 ==> float_text_spec(a + seq!['e'] + x) && float_text_spec(
            a + seq!['E'] + (seq!['-'] + x),
        ) && float_text_spec(a + seq!['e'] + (seq!['+'] + x)),
        a.len() + b.len() >= 1 && x.len() >= 1 ==> float_text_spec(
            (a + seq!['.'] + b) + seq!['E'] + x,
        ),
        eq_ignore_ascii_case_spec(w, "inf"@) || eq_ignore_ascii_case_spec(w, "infinity"@)
            || eq_ignore_ascii_case_spec(w, "nan"@) ==> float_text_spec(w) && float_text_spec(
            seq!['-'] + w,
        ),
        !float_text_spec(Seq::<char>::empty()),
        !float_text_spec(seq!['.']),
        !float_text_spec(seq!['+']),
        !float_text_spec(seq!['e'] + x),
{
    reveal_strlit("inf");
    reveal_strlit("infinity");
    reveal_strlit("nan");
    if x.len() >= 1 {
        assert(is_dec_digit(x[0]));
        assert(without_sign(x) == x);
        assert((seq!['-'] + x).drop_first() =~= x);
        assert((seq!['+'] + x).drop_first() =~= x);
        assert(exponent_text(x));
        assert(exponent_text(seq!['-'] + x));
        assert(exponent_text(seq!['+'] + x));
    }
    if a.len() >= 1 {
        lemma_digits_mantissa(a);
        assert(is_dec_digit(a[0]));
        assert(without_sign(a) == a);
        assert((seq!['+'] + a).drop_first() =~= a);
        assert((seq!['-'] + a).drop_first() =~= a);
        if x.len() >= 1 {
            lemma_number_with_exponent(a, 'e', x);
            lemma_number_with_exponent(a, 'E', seq!['-'] + x);
            lemma_number_with_exponent(a, 'e', seq!['+'] + x);
            assert((a + seq!['e'] + x)[0] == a[0]);
            assert((a + seq!['E'] + (seq!['-'] + x))[0] == a[0]);
            assert((a + seq!['e'] + (seq!['+'] + x))[0] == a[0]);
        }
    }
    if a.len() + b.len() >= 1 {
        let m = a + seq!['.'] + b;
        lemma_point_mantissa(a, b);
        assert(m[a.len() as int] == '.');
        assert(m[0] == '.' || is_dec_digit(m[0]));
        assert(without_sign(m) == m);
        assert((seq!['-'] + m).drop_first() =~= m);
        if x.len() >= 1 {
            lemma_number_with_exponent(m, 'E', x);
            assert((m + seq!['E'] + x)[0] == m[0]);
        }
    }
    if eq_ignore_ascii_case_spec(w, "inf"@) || eq_ignore_ascii_case_spec(w, "infinity"@)
        || eq_ignore_ascii_case_spec(w, "nan"@) {
        assert(ascii_lower(w[0]) == 'i' || ascii_lower(w[0]) == 'n');
        assert(without_sign(w) == w);
        assert((seq!['-'] + w).drop_first() =~= w);
    }
    // A lone `.`: no digit.
    assert(!mantissa_text(seq!['.'])) by {
        if mantissa_text(seq!['.']) {
            let i = choose|i: int| 0 <= i < 1 && is_dec_digit(#[trigger] seq!['.'][i]);
            assert(seq!['.'][i] == '.');
        }
    }
    assert(!number_text(seq!['.'])) by {
        assert(seq!['.'][0] == '.');
    }
    // A lone `+`: nothing after the sign.
    assert((seq!['+']).drop_first() =~= Seq::<char>::empty());
    assert(!mantissa_text(Seq::<char>::empty()));
    // Text that starts with `e` has no mantissa before it.
    let t = seq!['e'] + x;
    assert(t[0] == 'e');
    assert(!mantissa_text(t)) by {
        assert(!(is_dec_digit(t[0]) || t[0] == '.'));
    }
    assert(!number_text(t)) by {
        if number_text(t) {
            let k = choose|k: int|
                0 <= k < t.len() && (#[trigger] t[k] == 'e' || t[k] == 'E') && mantissa_text(t.take(k))
                    && exponent_text(t.skip(k + 1));
            if k > 0 {
                assert(t.take(k)[0] == 'e');
            } else {
                assert(t.take(k).len() == 0);
            }
        }
    }
}

/// Formatting law: `n` in decimal (as `format!("{}", n)` writes it) is made
/// of the digits `0`-`9` only, has no leading zero unless it is `0`, and
/// reads as `n`; in hexadecimal (as `format!("{:X}", n)` writes it) it is
/// made of `0`-`9` and `A`-`F` only, likewise without a leading zero, and
/// reads as `n`. Text of this form is unique for each `n`.
pub proof fn lemma_digits_form(n: nat)
    ensures
        forall|i: int| 0 <= i < dec_digits(n).len() ==> '0' <= #[trigger] dec_digits(n)[i] <= '9',
        dec_digits(n)[0] != '0' || n == 0,
        digits_value(dec_digits(n), 10) == n,
        forall|i: int| 0 <= i < hex_digits(n).len() ==> ('0' <= #[trigger] hex_digits(n)[i] <= '9' || 'A'
            <= hex_digits(n)[i] <= 'F'),
        hex_digits(n)[0] != '0' || n == 0,
        digits_value(hex_digits(n), 16) == n,
    decreases n,
{
    lemma_dec_digits(n);
    lemma_hex_digits(n);
    lemma_accumulate_exact(dec_digits(n), 10, n);
    lemma_accumulate_exact(hex_digits(n), 16, n);
    if n >= 10 {
        lemma_digits_form(n / 10);
        assert(dec_digits(n)[0] == dec_digits(n / 10)[0]);
        assert forall|i: int| 0 <= i < dec_digits(n).len() implies '0' <= #[trigger] dec_digits(n)[i] <= '9' by {
            if i < dec_digits(n / 10).len() {
                assert(dec_digits(n)[i] == dec_digits(n / 10)[i]);
            }
        }
    }
    if n >= 16 {
        lemma_digits_form(n / 16);
        assert(hex_digits(n)[0] == hex_digits(n / 16)[0]);
        assert forall|i: int| 0 <= i < hex_digits(n).len() implies ('0' <= #[trigger] hex_digits(n)[i] <= '9'
            || 'A' <= hex_digits(n)[i] <= 'F') by {
            if i < hex_digits(n / 16).len() {
                assert(hex_digits(n)[i] == hex_digits(n / 16)[i]);
            }
        }
    }
}

} // verus!
