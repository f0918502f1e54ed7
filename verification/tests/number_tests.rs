use ce_mcp_plugin::number::{
    is_float_text, parse_address, parse_i32, parse_i64, parse_u16, parse_u32, parse_u8, push_byte_hex, push_dec,
    push_hex, push_int, ParseIntError,
};
use ce_mcp_plugin::text::{split_chars, to_chars, trim_chars};

fn chars(s: &str) -> Vec<char> {
    to_chars(s)
}

#[test]
fn address_decimal_and_hex() {
    assert_eq!(parse_address("1234"), Ok(1234));
    assert_eq!(parse_address("0x1f"), Ok(31));
    assert_eq!(parse_address("0XfF"), Ok(255));
    assert_eq!(parse_address("  0x10\t"), Ok(16));
    assert_eq!(parse_address("\u{3000}7\u{a0}"), Ok(7));
    assert_eq!(parse_address("+5"), Ok(5));
    assert_eq!(parse_address("0x+5"), Ok(5));
}

#[test]
fn address_errors() {
    assert_eq!(parse_address(""), Err(ParseIntError::Empty));
    assert_eq!(parse_address("   "), Err(ParseIntError::Empty));
    assert_eq!(parse_address("0x"), Err(ParseIntError::Empty));
    assert_eq!(parse_address("0x-1"), Err(ParseIntError::InvalidDigit));
    assert_eq!(parse_address("-1"), Err(ParseIntError::InvalidDigit));
    assert_eq!(parse_address("12a"), Err(ParseIntError::InvalidDigit));
    assert_eq!(parse_address("+"), Err(ParseIntError::InvalidDigit));
    assert_eq!(parse_address("1 2"), Err(ParseIntError::InvalidDigit));
    assert_eq!(parse_address("0x1g"), Err(ParseIntError::InvalidDigit));
}

#[test]
fn address_overflow() {
    assert_eq!(parse_address("0xFFFFFFFFFFFFFFFF"), Ok(usize::MAX));
    assert_eq!(parse_address("0x10000000000000000"), Err(ParseIntError::PosOverflow));
    assert_eq!(parse_address("18446744073709551616"), Err(ParseIntError::PosOverflow));
    // The first problem met from the left decides the error.
    assert_eq!(parse_address("99999999999999999999x"), Err(ParseIntError::PosOverflow));
}

#[test]
fn address_matches_std_on_samples() {
    for s in ["0", "00", "007", "0x0", "0xabcdef", "123456789", "0x", "x1", "1x", "0x0x1"] {
        let std_result = {
            let t = s.trim();
            if t.starts_with("0x") || t.starts_with("0X") {
                usize::from_str_radix(&t[2..], 16)
            } else {
                t.parse::<usize>()
            }
        };
        assert_eq!(parse_address(s).ok(), std_result.ok(), "{}", s);
    }
}

#[test]
fn i32_parsing() {
    assert_eq!(parse_i32(&chars("-2147483648")), Ok(i32::MIN));
    assert_eq!(parse_i32(&chars("2147483647")), Ok(i32::MAX));
    assert_eq!(parse_i32(&chars("2147483648")), Err(ParseIntError::PosOverflow));
    assert_eq!(parse_i32(&chars("-2147483649")), Err(ParseIntError::NegOverflow));
    assert_eq!(parse_i32(&chars("-")), Err(ParseIntError::InvalidDigit));
    assert_eq!(parse_i32(&chars("")), Err(ParseIntError::Empty));
    assert_eq!(parse_i32(&chars("-0")), Ok(0));
    assert_eq!(parse_i32(&chars("+-1")), Err(ParseIntError::InvalidDigit));
}

#[test]
fn unsigned_parsing() {
    assert_eq!(parse_u8(&chars("255")), Ok(255));
    assert_eq!(parse_u8(&chars("256")), Err(ParseIntError::PosOverflow));
    assert_eq!(parse_u8(&chars("-0")), Err(ParseIntError::InvalidDigit));
    assert_eq!(parse_u16(&chars("65535")), Ok(65535));
    assert_eq!(parse_u16(&chars("65536")), Err(ParseIntError::PosOverflow));
    assert_eq!(parse_u32(&chars("4294967295")), Ok(u32::MAX));
    assert_eq!(parse_u32(&chars("+4294967296")), Err(ParseIntError::PosOverflow));
}

#[test]
fn i64_parsing() {
    assert_eq!(parse_i64(&chars("-9223372036854775808")), Ok(i64::MIN));
    assert_eq!(parse_i64(&chars("9223372036854775807")), Ok(i64::MAX));
    assert_eq!(parse_i64(&chars("9223372036854775808")), Err(ParseIntError::PosOverflow));
    assert_eq!(parse_i64(&chars("-9223372036854775809")), Err(ParseIntError::NegOverflow));
}

#[test]
fn parsing_matches_std_on_samples() {
    for s in ["0", "-0", "+0", "12", "-12", "+", "-", "", "1_0", "99999999999", "-2147483648"] {
        assert_eq!(parse_i32(&chars(s)).ok(), s.parse::<i32>().ok(), "{}", s);
        assert_eq!(parse_u32(&chars(s)).ok(), s.parse::<u32>().ok(), "{}", s);
        assert_eq!(parse_u8(&chars(s)).ok(), s.parse::<u8>().ok(), "{}", s);
        assert_eq!(parse_i64(&chars(s)).ok(), s.parse::<i64>().ok(), "{}", s);
    }
}

#[test]
fn formatting() {
    let mut s = String::new();
    push_dec(&mut s, 0);
    s.push(' ');
    push_dec(&mut s, 1234567890);
    s.push(' ');
    push_hex(&mut s, 0xDEADBEEF);
    s.push(' ');
    push_hex(&mut s, 0);
    s.push(' ');
    push_int(&mut s, -42);
    s.push(' ');
    push_int(&mut s, i64::MIN);
    s.push(' ');
    push_byte_hex(&mut s, 0x0a);
    assert_eq!(s, "0 1234567890 DEADBEEF 0 -42 -9223372036854775808 0A");
}

#[test]
fn formatting_matches_std() {
    for n in [0u64, 9, 10, 255, 4096, u64::MAX] {
        let mut d = String::new();
        push_dec(&mut d, n);
        assert_eq!(d, format!("{}", n));
        let mut h = String::new();
        push_hex(&mut h, n);
        assert_eq!(h, format!("{:X}", n));
    }
}

#[test]
fn address_roundtrip_through_hex_text() {
    for a in [0usize, 1, 0x401000, usize::MAX] {
        let mut s = String::from("0x");
        push_hex(&mut s, a as u64);
        assert_eq!(parse_address(&s), Ok(a));
    }
}

#[test]
fn splitting_and_trimming() {
    let v = chars("a,b,,c");
    let all: Vec<String> =
        split_chars(&v, ',', None).iter().map(|p| p.iter().collect()).collect();
    assert_eq!(all, vec!["a", "b", "", "c"]);
    let two: Vec<String> =
        split_chars(&v, ',', Some(2)).iter().map(|p| p.iter().collect()).collect();
    assert_eq!(two, vec!["a", "b,,c"]);
    let empty: Vec<String> =
        split_chars(&chars(""), ',', None).iter().map(|p| p.iter().collect()).collect();
    assert_eq!(empty, vec![""]);
    let t: String = trim_chars(&chars(" \t x y \n")).iter().collect();
    assert_eq!(t, "x y");
}

#[test]
fn address_roundtrip_in_every_hex_form() {
    for a in [0usize, 9, 0xabcdef, 0x401000, usize::MAX] {
        assert_eq!(parse_address(&format!("0x{:x}", a)), Ok(a));
        assert_eq!(parse_address(&format!("0x{:X}", a)), Ok(a));
        assert_eq!(parse_address(&format!("0X{:X}", a)), Ok(a));
        assert_eq!(parse_address(&format!("0X{:x}", a)), Ok(a));
        assert_eq!(parse_address(&a.to_string()), Ok(a));
    }
}

#[test]
fn address_forms() {
    assert_eq!(parse_address("  +0x1f "), Err(ParseIntError::InvalidDigit));
    assert_eq!(parse_address("0x+1f"), Ok(0x1f));
    assert_eq!(parse_address("+42"), Ok(42));
    assert_eq!(parse_address("0x"), Err(ParseIntError::Empty));
    assert_eq!(parse_address("0x+"), Err(ParseIntError::InvalidDigit));
    assert_eq!(parse_address("-1"), Err(ParseIntError::InvalidDigit));
    assert_eq!(parse_address("1f"), Err(ParseIntError::InvalidDigit));
    assert_eq!(parse_address("\t0XFF\n"), Ok(255));
}

#[test]
fn float_text_matches_std() {
    let samples = [
        "2.5", "1", "1.", ".5", "-0.25", "+3", "1e3", "1E-3", "2.5e+10", ".5e1", "1e99999",
        "inf", "-inf", "+Infinity", "INFINITY", "NaN", "-nan", "", ".", "+", "-", "e5", "1e",
        "1e+", "1.2.3", "1..", " 1", "1 ", "0x10", "abc", "in", "infinit", "nanx", "+-1", "1e1.5",
        "1_0", "١", "..5", "5.e2", "00.00",
    ];
    for s in samples {
        assert_eq!(is_float_text(&chars(s)), s.parse::<f32>().is_ok(), "{:?}", s);
    }
}
