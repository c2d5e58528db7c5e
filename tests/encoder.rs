use polyglot::{Encoder, Kind};

#[test]
fn test_encode_nil() {
    let mut encoder = Encoder::new();
    encoder.encode_none();

    assert_eq!(encoder.size(), 1);
    assert_eq!(encoder.as_slice()[0], Kind::Nil.code_of());
}

#[test]
fn test_encode_array() {
    let mut encoder = Encoder::new();
    encoder.encode_array(32, Kind::String);

    assert_eq!(encoder.size(), 1 + 1 + 1 + 1);
    assert_eq!(encoder.as_slice()[0], Kind::Array.code_of());
    assert_eq!(encoder.as_slice()[1], Kind::String.code_of());
    assert_eq!(encoder.as_slice()[2], Kind::U32.code_of());
}

#[test]
fn test_encode_map() {
    let mut encoder = Encoder::new();
    encoder.encode_map(32, Kind::String, Kind::U32);

    assert_eq!(encoder.size(), 1 + 1 + 1 + 1 + 1);
    assert_eq!(encoder.as_slice()[0], Kind::Dict.code_of());
    assert_eq!(encoder.as_slice()[1], Kind::String.code_of());
    assert_eq!(encoder.as_slice()[2], Kind::U32.code_of());
    assert_eq!(encoder.as_slice()[3], Kind::U32.code_of());
}

#[test]
fn test_encode_bytes() {
    let mut encoder = Encoder::new();
    let v = "Test String".as_bytes();
    encoder.encode_bytes(v);

    assert_eq!(encoder.size(), 1 + 1 + 1 + v.len());
    assert_eq!(encoder.as_slice()[1 + 1 + 1..].to_owned(), v);
}

#[test]
fn test_encode_string() {
    let mut encoder = Encoder::new();
    let v = "Test String".to_string();
    encoder.encode_string(&v);

    assert_eq!(encoder.size(), 1 + 1 + 1 + v.len());
    assert_eq!(encoder.as_slice()[1 + 1 + 1..].to_owned(), v.as_bytes());
}

#[test]
fn test_encode_error() {
    let mut encoder = Encoder::new();
    let v = "Test Error";
    encoder.encode_error(v);
    assert_eq!(encoder.size(), 1 + 1 + 1 + 1 + v.len());
    assert_eq!(
        encoder.as_slice()[1 + 1 + 1 + 1..].to_owned(),
        v.to_string().as_bytes()
    );
}

#[test]
fn test_encode_bool() {
    let mut encoder = Encoder::new();
    encoder.encode_bool(true);

    assert_eq!(encoder.size(), 2);
    assert_eq!(encoder.as_slice()[1], 0x1);
}

#[test]
fn test_encode_u8() {
    let mut encoder = Encoder::new();
    encoder.encode_u8(32);

    assert_eq!(encoder.as_slice()[1], 32);
}

#[test]
fn test_encode_u16() {
    let mut encoder = Encoder::new();
    let v = 1024;
    let e = [128, 8];
    encoder.encode_u16(v);

    assert_eq!(encoder.as_slice()[1..].to_owned(), e);
}

#[test]
fn test_encode_u32() {
    let mut encoder = Encoder::new();
    let v = 4294967290;
    let e = [250, 255, 255, 255, 15];
    encoder.encode_u32(v);

    assert_eq!(encoder.as_slice()[1..].to_owned(), e);
}

#[test]
fn test_encode_u64() {
    let mut encoder = Encoder::new();
    let v = 18446744073709551610;
    let e = [250, 255, 255, 255, 255, 255, 255, 255, 255, 1];
    encoder.encode_u64(v);

    assert_eq!(encoder.as_slice()[1..].to_owned(), e);
}

#[test]
fn test_encode_i32() {
    let mut encoder = Encoder::new();
    let v = -2147483648;
    let e = [255, 255, 255, 255, 15];
    encoder.encode_i32(v);

    assert_eq!(encoder.as_slice()[1..].to_owned(), e);
}

#[test]
fn test_encode_i64() {
    let mut encoder = Encoder::new();
    let v = -9223372036854775808 as i64;
    let e = [255, 255, 255, 255, 255, 255, 255, 255, 255, 1];
    encoder.encode_i64(v);

    assert_eq!(encoder.as_slice()[1..].to_owned(), e);
}

#[test]
fn test_encode_f32() {
    let mut encoder = Encoder::new();
    let v = -214648.34432 as f32;
    let e = [0xC8, 0x51, 0x9E, 0x16];
    encoder.encode_f32(v.to_bits());

    assert_eq!(encoder.size(), 5);
    assert_eq!(encoder.as_slice()[1..].to_owned(), e);
}

#[test]
fn test_encode_f64() {
    let mut encoder = Encoder::new();
    let v: f64 = -922337203685.2345;
    let e = [0xC2, 0x6A, 0xD7, 0xF2, 0x9A, 0xBC, 0xA7, 0x81];
    encoder.encode_f64(v.to_bits());

    assert_eq!(encoder.size(), 9);
    assert_eq!(encoder.as_slice()[1..].to_owned(), e);
}
