//! The value types of memory reads and writes, how integer values become
//! the little-endian bytes that are written and are read back, and the type
//! codes of address-list entries.
use vstd::prelude::*;
use crate::number::{
    all_digits, dec_digits, digit_value, lemma_accumulate_exact, lemma_dec_digits, int_text, parse_i64, parse_i64_spec, parse_u16, parse_u16_spec, parse_u32, parse_u32_spec,
    parse_u8, parse_u8_spec, push_int, ParseIntError,
};
use crate::text::{ascii_lower, chars_eq_str, eq_ignore_ascii_case_spec, to_chars};

verus! {

broadcast use vstd::string::group_string_axioms;

/// The type of a value in memory, as a read or write command names it.
#[derive(Debug, Clone, Copy, PartialEq, Eq, Structural)]
pub enum ValueType {
    /// `byte`: unsigned, 1 byte.
    Byte,
    /// `word`: unsigned, 2 bytes.
    Word,
    /// `dword`: unsigned, 4 bytes.
    Dword,
    /// `float`: 4-byte floating point.
    Float,
    /// `double`: 8-byte floating point.
    Double,
    /// `int64`: signed, 8 bytes.
    Int64,
}

/// The type a name stands for: each name in all small or all capital letters.
pub open spec fn value_type_of(name: Seq<char>) -> Option<ValueType> {
    if name == "byte"@ || name == "BYTE"@ {
        Some(ValueType::Byte)
    } else if name == "word"@ || name == "WORD"@ {
        Some(ValueType::Word)
    } else if name == "dword"@ || name == "DWORD"@ {
        Some(ValueType::Dword)
    } else if name == "float"@ || name == "FLOAT"@ {
        Some(ValueType::Float)
    } else if name == "double"@ || name == "DOUBLE"@ {
        Some(ValueType::Double)
    } else if name == "int64"@ || name == "INT64"@ {
        Some(ValueType::Int64)
    } else {
        None
    }
}

/// `256` to the power `n`.
pub open spec fn byte_power(n: nat) -> nat
    decreases n,
{
    if n == 0 {
        1
    } else {
        256 * byte_power((n - 1) as nat)
    }
}

/// The number that the bytes `b` hold, least significant byte first.
pub open spec fn le_value(b: Seq<u8>) -> nat
    decreases b.len(),
{
    if b.len() == 0 {
        0
    } else {
        b[0] as nat + 256 * le_value(b.drop_first())
    }
}

/// The `n` low bytes of `v`, least significant first (`to_le_bytes`).
pub open spec fn le_bytes(v: nat, n: nat) -> Seq<u8>
    decreases n,
{
    if n == 0 {
        Seq::<u8>::empty()
    } else {
        seq![(v % 256) as u8] + le_bytes(v / 256, (n - 1) as nat)
    }
}

impl ValueType {
    /// How many bytes a value of this type takes.
    pub open spec fn size_spec(self) -> nat {
        match self {
            ValueType::Byte => 1,
            ValueType::Word => 2,
            ValueType::Dword => 4,
            ValueType::Float => 4,
            ValueType::Double => 8,
            ValueType::Int64 => 8,
        }
    }

    /// Whether the type is an integer type.
    pub open spec fn is_integer(self) -> bool {
        !(self is Float) && !(self is Double)
    }

    /// The integer that the text `value` stands for in this (integer) type.
    pub open spec fn parse_spec(self, value: Seq<char>) -> Result<int, ParseIntError> {
        match self {
            ValueType::Byte => parse_u8_spec(value),
            ValueType::Word => parse_u16_spec(value),
            ValueType::Dword => parse_u32_spec(value),
            _ => parse_i64_spec(value),
        }
    }

    /// The integer of this (integer) type that the bytes `b` hold.
    pub open spec fn decode_spec(self, b: Seq<u8>) -> int {
        let u = le_value(b);
        if self is Int64 && u >= 0x8000_0000_0000_0000 {
            u - 0x1_0000_0000_0000_0000
        } else {
            u as int
        }
    }

    /// The bytes that hold the integer `v` in this (integer) type.
    pub open spec fn encode_spec(self, v: int) -> Seq<u8> {
        let u: nat = if v < 0 {
            (v + 0x1_0000_0000_0000_0000) as nat
        } else {
            v as nat
        };
        le_bytes(u, self.size_spec())
    }

    /// The bytes that writing the text `value` as this (integer) type
    /// writes, or `None` when the text is no value of the type.
    pub open spec fn write_bytes_spec(self, value: Seq<char>) -> Option<Seq<u8>> {
        match self.parse_spec(value) {
            Ok(v) => Some(self.encode_spec(v)),
            Err(_) => None,
        }
    }

    /// The type a name stands for (see `value_type_of`).
    pub fn from_name(name: &str) -> (res: Option<ValueType>)
        ensures
            res == value_type_of(name@),
    {
        let n = to_chars(name);
        let n = n.as_slice();
        if chars_eq_str(n, "byte") || chars_eq_str(n, "BYTE") {
            Some(ValueType::Byte)
        } else if chars_eq_str(n, "word") || chars_eq_str(n, "WORD") {
            Some(ValueType::Word)
        } else if chars_eq_str(n, "dword") || chars_eq_str(n, "DWORD") {
            Some(ValueType::Dword)
        } else if chars_eq_str(n, "float") || chars_eq_str(n, "FLOAT") {
            Some(ValueType::Float)
        } else if chars_eq_str(n, "double") || chars_eq_str(n, "DOUBLE") {
            Some(ValueType::Double)
        } else if chars_eq_str(n, "int64") || chars_eq_str(n, "INT64") {
            Some(ValueType::Int64)
        } else {
            None
        }
    }

    /// How many bytes a value of this type takes.
    pub fn size(&self) -> (res: usize)
        ensures
            res == self.size_spec(),
    {
        match self {
            ValueType::Byte => 1,
            ValueType::Word => 2,
            ValueType::Dword => 4,
            ValueType::Float => 4,
            ValueType::Double => 8,
            ValueType::Int64 => 8,
        }
    }

    /// Whether the type is an integer type.
    pub fn is_integer_type(&self) -> (res: bool)
        ensures
            res == self.is_integer(),
    {
        !matches!(self, ValueType::Float | ValueType::Double)
    }

    /// The bytes to write for the text `value` in this integer type, or
    /// `None` when the text is no value of the type.
    pub fn encode_integer(&self, value: &str) -> (res: Option<Vec<u8>>)
        requires
            self.is_integer(),
        ensures
            match self.write_bytes_spec(value@) {
                Some(b) => res matches Some(r) && r@ == b,
                None => res is None,
            },
    {
        let cs = to_chars(value);
        let cs = cs.as_slice();
        let u: u64 = match self {
            ValueType::Byte => match parse_u8(cs) {
                Ok(v) => v as u64,
                Err(_) => return None,
            },
            ValueType::Word => match parse_u16(cs) {
                Ok(v) => v as u64,
                Err(_) => return None,
            },
            ValueType::Dword => match parse_u32(cs) {
                Ok(v) => v as u64,
                Err(_) => return None,
            },
            _ => match parse_i64(cs) {
                Ok(v) => if v >= 0 {
                    v as u64
                } else {
                    ((v + 0x7fff_ffff_ffff_ffff + 1) as u64) + 0x8000_0000_0000_0000
                },
                Err(_) => return None,
            },
        };
        Some(le_encode(u, self.size()))
    }

    /// The decimal text of the integer of this type that the bytes `b`
    /// hold.
    pub fn integer_text(&self, b: &[u8]) -> (res: String)
        requires
            self.is_integer(),
            b.len() == self.size_spec(),
        ensures
            res@ == int_text(self.decode_spec(b@)),
    {
        proof {
            lemma_le_value_bound(b@);
            lemma_byte_powers();
        }
        let u = le_decode(b);
        let v: i64 = if matches!(self, ValueType::Int64) && u >= 0x8000_0000_0000_0000 {
            i64::MIN + ((u - 0x8000_0000_0000_0000) as i64)
        } else {
            u as i64
        };
        let mut s = String::new();
        push_int(&mut s, v);
        s
    }
}

/// The `n` low bytes of `v`, least significant first.
pub fn le_encode(v: u64, n: usize) -> (res: Vec<u8>)
    ensures
        res@ == le_bytes(v as nat, n as nat),
{
    let mut out: Vec<u8> = Vec::new();
    let mut rest: u64 = v;
    let mut k: usize = 0;
    while k < n
        invariant
            k <= n,
            out@ + le_bytes(rest as nat, (n - k) as nat) == le_bytes(v as nat, n as nat),
        decreases n - k,
    {
        let ghost before = out@;
        out.push((rest % 256) as u8);
        assert(le_bytes(rest as nat, (n - k) as nat) == seq![(rest % 256) as u8] + le_bytes(
            (rest / 256) as nat,
            (n - k - 1) as nat,
        ));
        assert(out@ + le_bytes((rest / 256) as nat, (n - k - 1) as nat) =~= before + le_bytes(
            rest as nat,
            (n - k) as nat,
        ));
        rest = rest / 256;
        k = k + 1;
    }
    assert(le_bytes(rest as nat, 0) =~= Seq::<u8>::empty());
    assert(out@ =~= out@ + le_bytes(rest as nat, 0));
    out
}

/// A little-endian byte string holds less than `256` to the power of its
/// length.
pub proof fn lemma_le_value_bound(b: Seq<u8>)
    ensures
        le_value(b) < byte_power(b.len()),
    decreases b.len(),
{
    if b.len() > 0 {
        lemma_le_value_bound(b.drop_first());
    }
}

/// The number that at most 8 bytes `b` hold, least significant first.
pub fn le_decode(b: &[u8]) -> (res: u64)
    requires
        b.len() <= 8,
    ensures
        res == le_value(b@),
{
    let mut acc: u128 = 0;
    let mut k: usize = b.len();
    assert(b@.skip(b.len() as int) =~= Seq::<u8>::empty());
    while k > 0
        invariant
            k <= b.len() <= 8,
            acc == le_value(b@.skip(k as int)),
        decreases k,
    {
        proof {
            lemma_le_value_bound(b@.skip(k as int));
            lemma_byte_power_mono((b.len() - k) as nat, 8);
            lemma_byte_powers();
        }
        assert(b@.skip(k as int - 1).drop_first() =~= b@.skip(k as int));
        acc = acc * 256 + (b[k - 1] as u128);
        k = k - 1;
    }
    assert(b@.skip(0) =~= b@);
    proof {
        lemma_le_value_bound(b@);
        lemma_byte_power_mono(b.len() as nat, 8);
        lemma_byte_powers();
    }
    acc as u64
}

/// The powers of `256` that the value types use.
pub proof fn lemma_byte_powers()
    ensures
        byte_power(1) == 0x100,
        byte_power(2) == 0x1_0000,
        byte_power(4) == 0x1_0000_0000,
        byte_power(8) == 0x1_0000_0000_0000_0000,
{
    reveal_with_fuel(byte_power, 9);
}

/// `256` to a power grows with the power.
pub proof fn lemma_byte_power_mono(a: nat, b: nat)
    requires
        a <= b,
    ensures
        byte_power(a) <= byte_power(b),
    decreases b,
{
    if a < b {
        lemma_byte_power_mono(a, (b - 1) as nat);
    }
}

/// Reading the bytes written for `v` gives `v` back, for `v` below `256`
/// to the power of the width.
pub proof fn lemma_le_roundtrip(v: nat, n: nat)
    requires
        v < byte_power(n),
    ensures
        le_value(le_bytes(v, n)) == v,
        le_bytes(v, n).len() == n,
    decreases n,
{
    if n > 0 {
        assert(v / 256 < byte_power((n - 1) as nat)) by (nonlinear_arith)
            requires
                v < 256 * byte_power((n - 1) as nat),
        ;
        lemma_le_roundtrip(v / 256, (n - 1) as nat);
        let b = le_bytes(v, n);
        assert(b.drop_first() =~= le_bytes(v / 256, (n - 1) as nat));
    }
}

/// Memory law: the value that a write stores is the value that a read of
/// the same integer type gives back.
pub proof fn lemma_write_then_read(ty: ValueType, value: Seq<char>)
    requires
        ty.is_integer(),
        ty.write_bytes_spec(value) is Some,
    ensures
        ty.parse_spec(value) matches Ok(v) && ty.decode_spec(ty.write_bytes_spec(value)->0) == v,
        ty.write_bytes_spec(value)->0.len() == ty.size_spec(),
{
    let v = ty.parse_spec(value)->Ok_0;
    crate::number::lemma_parse_int_bound(value, 10, true, 0x7fff_ffff_ffff_ffff, 0x8000_0000_0000_0000);
    crate::number::lemma_parse_int_bound(value, 10, false, 0xffff_ffff, 0);
    crate::number::lemma_parse_int_bound(value, 10, false, 0xffff, 0);
    crate::number::lemma_parse_int_bound(value, 10, false, 0xff, 0);
    lemma_byte_powers();
    let u: nat = if v < 0 {
        (v + 0x1_0000_0000_0000_0000) as nat
    } else {
        v as nat
    };
    lemma_le_roundtrip(u, ty.size_spec());
}

/// `str::to_uppercase` of a text, as Unicode defines capital letters.
pub uninterp spec fn uppercase(s: Seq<char>) -> Seq<char>;

/// `str::to_uppercase`: the text in capital letters. Stated here: the
/// result is a function of the text; Unicode's case mapping is left unsaid.
#[verifier::external_body]
fn to_uppercase(s: &str) -> (res: String)
    ensures
        res@ == uppercase(s@),
{
    s.to_uppercase()
}

/// The address-list type code for a type name already in capital letters:
/// `BYTE` 0, `WORD` 1, `DWORD` 2, `FLOAT` 3, `DOUBLE` 4, `STRING` 6,
/// `BYTE_ARRAY` 7, and 2 for any other name.
pub open spec fn entry_type_code_spec(upper: Seq<char>) -> i32 {
    if upper == "BYTE"@ {
        0
    } else if upper == "WORD"@ {
        1
    } else if upper == "DWORD"@ {
        2
    } else if upper == "FLOAT"@ {
        3
    } else if upper == "DOUBLE"@ {
        4
    } else if upper == "STRING"@ {
        6
    } else if upper == "BYTE_ARRAY"@ {
        7
    } else {
        2
    }
}

/// The address-list type code for a type name in capital letters.
pub fn entry_type_code(upper: &str) -> (res: i32)
    ensures
        res == entry_type_code_spec(upper@),
{
    let u = to_chars(upper);
    let u = u.as_slice();
    if chars_eq_str(u, "BYTE") {
        0
    } else if chars_eq_str(u, "WORD") {
        1
    } else if chars_eq_str(u, "DWORD") {
        2
    } else if chars_eq_str(u, "FLOAT") {
        3
    } else if chars_eq_str(u, "DOUBLE") {
        4
    } else if chars_eq_str(u, "STRING") {
        6
    } else if chars_eq_str(u, "BYTE_ARRAY") {
        7
    } else {
        2
    }
}

/// The address-list type code for a type name in any case: the name is put
/// in capital letters first.
pub fn entry_type_id(type_: &str) -> (res: i32)
    ensures
        res == entry_type_code_spec(uppercase(type_@)),
{
    let upper = to_uppercase(type_);
    entry_type_code(upper.as_str())
}

/// Whether a read or write moved all it was asked to: the call reported
/// success (`1`) and moved `size` bytes.
pub fn transfer_complete(result: i32, moved: usize, size: usize) -> (res: bool)
    ensures
        res == (result == 1 && moved == size),
{
    result == 1 && moved == size
}


/// Memory law: each type is read from its name in small letters and in
/// capital letters, and has the size that name stands for: `byte` 1,
/// `word` 2, `dword` 4, `float` 4, `double` 8, `int64` 8 bytes. Two names
/// of one type differ only in the case of their letters.
pub proof fn lemma_value_type_names(a: Seq<char>, b: Seq<char>)
    ensures
        value_type_of("byte"@) == Some(ValueType::Byte) && value_type_of("BYTE"@) == Some(ValueType::Byte)
            && ValueType::Byte.size_spec() == 1,
        value_type_of("word"@) == Some(ValueType::Word) && value_type_of("WORD"@) == Some(ValueType::Word)
            && ValueType::Word.size_spec() == 2,
        value_type_of("dword"@) == Some(ValueType::Dword) && value_type_of("DWORD"@) == Some(ValueType::Dword)
            && ValueType::Dword.size_spec() == 4,
        value_type_of("float"@) == Some(ValueType::Float) && value_type_of("FLOAT"@) == Some(ValueType::Float)
            && ValueType::Float.size_spec() == 4,
        value_type_of("double"@) == Some(ValueType::Double) && value_type_of("DOUBLE"@) == Some(ValueType::Double)
            && ValueType::Double.size_spec() == 8,
        value_type_of("int64"@) == Some(ValueType::Int64) && value_type_of("INT64"@) == Some(ValueType::Int64)
            && ValueType::Int64.size_spec() == 8,
        value_type_of(a) is Some && value_type_of(a) == value_type_of(b) ==> eq_ignore_ascii_case_spec(a, b),
{
    reveal_strlit("byte");
    reveal_strlit("BYTE");
    reveal_strlit("word");
    reveal_strlit("WORD");
    reveal_strlit("dword");
    reveal_strlit("DWORD");
    reveal_strlit("float");
    reveal_strlit("FLOAT");
    reveal_strlit("double");
    reveal_strlit("DOUBLE");
    reveal_strlit("int64");
    reveal_strlit("INT64");
    // The characters that tell the names apart.
    assert("byte"@[0] == 'b' && "byte"@[1] == 'y');
    assert("BYTE"@[0] == 'B' && "BYTE"@[1] == 'Y');
    assert("word"@[0] == 'w' && "word"@[1] == 'o');
    assert("WORD"@[0] == 'W' && "WORD"@[1] == 'O');
    assert("dword"@[0] == 'd' && "dword"@[1] == 'w');
    assert("DWORD"@[0] == 'D' && "DWORD"@[1] == 'W');
    assert("float"@[0] == 'f' && "float"@[1] == 'l');
    assert("FLOAT"@[0] == 'F' && "FLOAT"@[1] == 'L');
    assert("double"@[0] == 'd' && "double"@[1] == 'o');
    assert("DOUBLE"@[0] == 'D' && "DOUBLE"@[1] == 'O');
    assert("int64"@[0] == 'i' && "int64"@[1] == 'n');
    assert("INT64"@[0] == 'I' && "INT64"@[1] == 'N');
    if value_type_of(a) is Some && value_type_of(a) == value_type_of(b) {
        assert forall|i: int| 0 <= i < a.len() implies ascii_lower(#[trigger] a[i]) == ascii_lower(b[i]) by {
            if value_type_of(a) == Some(ValueType::Byte) {
                assert(0 <= i < 4);
                assert(ascii_lower("byte"@[i]) == ascii_lower("BYTE"@[i]));
            } else if value_type_of(a) == Some(ValueType::Word) {
                assert(0 <= i < 4);
                assert(ascii_lower("word"@[i]) == ascii_lower("WORD"@[i]));
            } else if value_type_of(a) == Some(ValueType::Dword) {
                assert(0 <= i < 5);
                assert(ascii_lower("dword"@[i]) == ascii_lower("DWORD"@[i]));
            } else if value_type_of(a) == Some(ValueType::Float) {
                assert(0 <= i < 5);
                assert(ascii_lower("float"@[i]) == ascii_lower("FLOAT"@[i]));
            } else if value_type_of(a) == Some(ValueType::Double) {
                assert(0 <= i < 6);
                assert(ascii_lower("double"@[i]) == ascii_lower("DOUBLE"@[i]));
            } else if value_type_of(a) == Some(ValueType::Int64) {
                assert(0 <= i < 5);
                assert(ascii_lower("int64"@[i]) == ascii_lower("INT64"@[i]));
            }
        }
    }
}

/// Memory law: a value written in decimal can be written as an integer type
/// exactly when it lies in that type's range (`byte` 0 to 255, `word` 0 to
/// 65535, `dword` 0 to 4294967295, `int64` the 64-bit signed range), and it
/// is then written as that very value.
pub proof fn lemma_integer_ranges(ty: ValueType, v: int)
    requires
        ty.is_integer(),
    ensures
        (ty.parse_spec(int_text(v)) is Ok) == match ty {
            ValueType::Byte => 0 <= v <= 0xff,
            ValueType::Word => 0 <= v <= 0xffff,
            ValueType::Dword => 0 <= v <= 0xffff_ffff,
            _ => -0x8000_0000_0000_0000 <= v <= 0x7fff_ffff_ffff_ffff,
        },
        ty.parse_spec(int_text(v)) is Ok ==> ty.parse_spec(int_text(v)) == Ok::<int, ParseIntError>(v),
{
    let m: nat = if v < 0 {
        (-v) as nat
    } else {
        v as nat
    };
    let d = dec_digits(m);
    lemma_dec_digits(m);
    lemma_accumulate_exact(d, 10, m);
    assert(digit_value(d[0], 10) is Some);
    lemma_accumulate_exact(d, 10, 0xff);
    lemma_accumulate_exact(d, 10, 0xffff);
    lemma_accumulate_exact(d, 10, 0xffff_ffff);
    lemma_accumulate_exact(d, 10, 0x7fff_ffff_ffff_ffff);
    lemma_accumulate_exact(d, 10, 0x8000_0000_0000_0000);
    if v < 0 {
        let s = int_text(v);
        assert(s.drop_first() =~= d);
        assert(s[0] == '-');
        assert(!all_digits(s, 10)) by {
            assert(digit_value(s[0], 10) is None);
        }
        lemma_accumulate_exact(s, 10, 0xff);
        lemma_accumulate_exact(s, 10, 0xffff);
        lemma_accumulate_exact(s, 10, 0xffff_ffff);
    }
}

} // verus!
