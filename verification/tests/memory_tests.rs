use ce_mcp_plugin::memory::{le_decode, le_encode, transfer_complete, ValueType};

#[test]
fn type_names() {
    assert_eq!(ValueType::from_name("byte"), Some(ValueType::Byte));
    assert_eq!(ValueType::from_name("BYTE"), Some(ValueType::Byte));
    assert_eq!(ValueType::from_name("Byte"), None);
    assert_eq!(ValueType::from_name("WORD"), Some(ValueType::Word));
    assert_eq!(ValueType::from_name("dword"), Some(ValueType::Dword));
    assert_eq!(ValueType::from_name("float"), Some(ValueType::Float));
    assert_eq!(ValueType::from_name("DOUBLE"), Some(ValueType::Double));
    assert_eq!(ValueType::from_name("int64"), Some(ValueType::Int64));
    assert_eq!(ValueType::from_name("qword"), None);
}

#[test]
fn sizes() {
    assert_eq!(ValueType::Byte.size(), 1);
    assert_eq!(ValueType::Word.size(), 2);
    assert_eq!(ValueType::Dword.size(), 4);
    assert_eq!(ValueType::Float.size(), 4);
    assert_eq!(ValueType::Double.size(), 8);
    assert_eq!(ValueType::Int64.size(), 8);
    assert!(ValueType::Dword.is_integer_type());
    assert!(!ValueType::Float.is_integer_type());
}

#[test]
fn encoding_is_little_endian() {
    assert_eq!(ValueType::Byte.encode_integer("200"), Some(vec![200]));
    assert_eq!(ValueType::Word.encode_integer("258"), Some(vec![2, 1]));
    assert_eq!(ValueType::Dword.encode_integer("305419896"), Some(0x12345678u32.to_le_bytes().to_vec()));
    assert_eq!(ValueType::Int64.encode_integer("-2"), Some((-2i64).to_le_bytes().to_vec()));
    assert_eq!(ValueType::Byte.encode_integer("256"), None);
    assert_eq!(ValueType::Word.encode_integer("-1"), None);
    assert_eq!(ValueType::Dword.encode_integer("1.5"), None);
}

#[test]
fn decoding() {
    assert_eq!(ValueType::Byte.integer_text(&[255]), "255");
    assert_eq!(ValueType::Word.integer_text(&[0x34, 0x12]), "4660");
    assert_eq!(ValueType::Dword.integer_text(&[0xff, 0xff, 0xff, 0xff]), "4294967295");
    assert_eq!(ValueType::Int64.integer_text(&(-5i64).to_le_bytes()), "-5");
    assert_eq!(ValueType::Int64.integer_text(&i64::MIN.to_le_bytes()), "-9223372036854775808");
    assert_eq!(ValueType::Int64.integer_text(&i64::MAX.to_le_bytes()), "9223372036854775807");
}

#[test]
fn write_then_read_gives_the_value_back() {
    for (ty, v) in [
        (ValueType::Byte, "7"),
        (ValueType::Word, "65535"),
        (ValueType::Dword, "123456"),
        (ValueType::Int64, "-9223372036854775808"),
        (ValueType::Int64, "42"),
    ] {
        let bytes = ty.encode_integer(v).unwrap();
        assert_eq!(bytes.len(), ty.size());
        assert_eq!(ty.integer_text(&bytes), v);
    }
}

#[test]
fn raw_codec() {
    assert_eq!(le_encode(0x0102030405060708, 8), vec![8, 7, 6, 5, 4, 3, 2, 1]);
    assert_eq!(le_encode(0x1ff, 1), vec![0xff]);
    assert_eq!(le_decode(&[8, 7, 6, 5, 4, 3, 2, 1]), 0x0102030405060708);
    assert_eq!(le_decode(&[]), 0);
}

#[test]
fn transfers() {
    assert!(transfer_complete(1, 4, 4));
    assert!(!transfer_complete(1, 3, 4));
    assert!(!transfer_complete(0, 4, 4));
    assert!(!transfer_complete(2, 4, 4));
}
