use polyglot::bindings::{
    encoder_new, polyglot_decode_array, polyglot_decode_bool, polyglot_decode_bytes,
    polyglot_decode_error, polyglot_decode_f32, polyglot_decode_f64, polyglot_decode_i32,
    polyglot_decode_i64, polyglot_decode_map, polyglot_decode_none, polyglot_decode_string,
    polyglot_decode_u16, polyglot_decode_u32, polyglot_decode_u64, polyglot_decode_u8,
    polyglot_encode_array, polyglot_encode_bool, polyglot_encode_bytes, polyglot_encode_error,
    polyglot_encode_f32, polyglot_encode_f64, polyglot_encode_i32, polyglot_encode_i64,
    polyglot_encode_map, polyglot_encode_none, polyglot_encode_string, polyglot_encode_u16,
    polyglot_encode_u32, polyglot_encode_u64, polyglot_encode_u8, polyglot_encoder_buffer,
    polyglot_encoder_size, polyglot_new_decoder, polyglot_new_encoder,
};
use polyglot::{Buffer, Encoder, Kind, PolyglotStatus, Status};

#[test]
fn missing_encoder_reports_null_pointer() {
    let mut s = Status::Pass;
    polyglot_encode_none(&mut s, None);
    assert_eq!(s, Status::NullPointer);
    let mut s = Status::Pass;
    polyglot_encode_array(&mut s, None, 1, Kind::U8);
    assert_eq!(s, Status::NullPointer);
    let mut s = Status::Pass;
    polyglot_encode_map(&mut s, None, 1, Kind::U8, Kind::U8);
    assert_eq!(s, Status::NullPointer);
    let mut s = Status::Pass;
    polyglot_encode_bytes(&mut s, None, Some(&[1u8][..]));
    assert_eq!(s, Status::NullPointer);
    let mut s = Status::Pass;
    polyglot_encode_string(&mut s, None, Some(&b"a"[..]));
    assert_eq!(s, Status::NullPointer);
    let mut s = Status::Pass;
    polyglot_encode_error(&mut s, None, Some(&b"a"[..]));
    assert_eq!(s, Status::NullPointer);
    let mut s = Status::Pass;
    polyglot_encode_bool(&mut s, None, true);
    assert_eq!(s, Status::NullPointer);
    let mut s = Status::Pass;
    polyglot_encode_u8(&mut s, None, 1);
    assert_eq!(s, Status::NullPointer);
    let mut s = Status::Pass;
    polyglot_encode_u16(&mut s, None, 1);
    assert_eq!(s, Status::NullPointer);
    let mut s = Status::Pass;
    polyglot_encode_u32(&mut s, None, 1);
    assert_eq!(s, Status::NullPointer);
    let mut s = Status::Pass;
    polyglot_encode_u64(&mut s, None, 1);
    assert_eq!(s, Status::NullPointer);
    let mut s = Status::Pass;
    polyglot_encode_i32(&mut s, None, 1);
    assert_eq!(s, Status::NullPointer);
    let mut s = Status::Pass;
    polyglot_encode_i64(&mut s, None, 1);
    assert_eq!(s, Status::NullPointer);
    let mut s = Status::Pass;
    polyglot_encode_f32(&mut s, None, 1);
    assert_eq!(s, Status::NullPointer);
    let mut s = Status::Pass;
    polyglot_encode_f64(&mut s, None, 1);
    assert_eq!(s, Status::NullPointer);
    let mut s = Status::Pass;
    assert_eq!(polyglot_encoder_size(&mut s, None), 0);
    assert_eq!(s, Status::NullPointer);
    let mut s = Status::Pass;
    let mut out = [7u8; 4];
    polyglot_encoder_buffer(&mut s, None, Some(&mut out[..]));
    assert_eq!(s, Status::NullPointer);
    assert_eq!(out, [7u8; 4]);
}

#[test]
fn missing_decoder_reports_null_pointer() {
    let mut s = Status::Pass;
    assert_eq!(polyglot_decode_none(&mut s, None), false);
    assert_eq!(s, Status::NullPointer);
    let mut s = Status::Pass;
    assert_eq!(polyglot_decode_array(&mut s, None, Kind::U8), 0);
    assert_eq!(s, Status::NullPointer);
    let mut s = Status::Pass;
    assert_eq!(polyglot_decode_map(&mut s, None, Kind::U8, Kind::U8), 0);
    assert_eq!(s, Status::NullPointer);
    let mut s = Status::Pass;
    assert!(polyglot_decode_bytes(&mut s, None).is_none());
    assert_eq!(s, Status::NullPointer);
    let mut s = Status::Pass;
    assert!(polyglot_decode_string(&mut s, None).is_none());
    assert_eq!(s, Status::NullPointer);
    let mut s = Status::Pass;
    assert!(polyglot_decode_error(&mut s, None).is_none());
    assert_eq!(s, Status::NullPointer);
    let mut s = Status::Pass;
    assert_eq!(polyglot_decode_bool(&mut s, None), false);
    assert_eq!(s, Status::NullPointer);
    let mut s = Status::Pass;
    assert_eq!(polyglot_decode_u8(&mut s, None), 0);
    assert_eq!(s, Status::NullPointer);
    let mut s = Status::Pass;
    assert_eq!(polyglot_decode_u16(&mut s, None), 0);
    assert_eq!(s, Status::NullPointer);
    let mut s = Status::Pass;
    assert_eq!(polyglot_decode_u32(&mut s, None), 0);
    assert_eq!(s, Status::NullPointer);
    let mut s = Status::Pass;
    assert_eq!(polyglot_decode_u64(&mut s, None), 0);
    assert_eq!(s, Status::NullPointer);
    let mut s = Status::Pass;
    assert_eq!(polyglot_decode_i32(&mut s, None), 0);
    assert_eq!(s, Status::NullPointer);
    let mut s = Status::Pass;
    assert_eq!(polyglot_decode_i64(&mut s, None), 0);
    assert_eq!(s, Status::NullPointer);
    let mut s = Status::Pass;
    assert_eq!(polyglot_decode_f32(&mut s, None), 0);
    assert_eq!(s, Status::NullPointer);
    let mut s = Status::Pass;
    assert_eq!(polyglot_decode_f64(&mut s, None), 0);
    assert_eq!(s, Status::NullPointer);
    let mut s = Status::Pass;
    assert!(polyglot_new_decoder(&mut s, None).is_none());
    assert_eq!(s, Status::NullPointer);
}

#[test]
fn encoder_calls_write_and_report_pass() {
    let mut s = Status::Fail;
    let mut e = polyglot_new_encoder(&mut s);
    assert_eq!(s, Status::Pass);
    let mut s = Status::Fail;
    polyglot_encode_array(&mut s, Some(&mut e), 32, Kind::String);
    assert_eq!(s, Status::Pass);
    polyglot_encode_u32(&mut s, Some(&mut e), 1024);
    polyglot_encode_i32(&mut s, Some(&mut e), -2147483648);
    assert_eq!(
        e.as_slice(),
        &[0x01, 0x05, 0x0A, 0x20, 0x0A, 0x80, 0x08, 0x0C, 0xFF, 0xFF, 0xFF, 0xFF, 0x0F]
    );
    assert_eq!(polyglot_encoder_size(&mut s, Some(&e)), 13);
    assert_eq!(s, Status::Pass);
}

#[test]
fn encoder_buffer_needs_room() {
    let mut s = Status::Pass;
    let mut e = Encoder::new();
    e.encode_u16(1024);

    let mut small = [9u8; 2];
    polyglot_encoder_buffer(&mut s, Some(&e), Some(&mut small[..]));
    assert_eq!(s, Status::Fail);
    assert_eq!(small, [9u8; 2]);

    let mut room = [9u8; 5];
    polyglot_encoder_buffer(&mut s, Some(&e), Some(&mut room[..]));
    assert_eq!(s, Status::Pass);
    assert_eq!(room, [0x09, 0x80, 0x08, 9, 9]);

    polyglot_encoder_buffer(&mut s, Some(&e), None);
    assert_eq!(s, Status::NullPointer);
}

#[test]
fn encode_string_checks_utf8() {
    let mut s = Status::Pass;
    let mut e = Encoder::new();
    polyglot_encode_string(&mut s, Some(&mut e), Some(&[0xC3, 0x28][..]));
    assert_eq!(s, Status::Fail);
    assert_eq!(e.size(), 0);
    polyglot_encode_error(&mut s, Some(&mut e), Some(&[0xFF][..]));
    assert_eq!(s, Status::Fail);
    assert_eq!(e.size(), 0);
    polyglot_encode_string(&mut s, Some(&mut e), Some("\u{e9}".as_bytes()));
    assert_eq!(s, Status::Pass);
    polyglot_encode_error(&mut s, Some(&mut e), Some(&b"Test Error"[..]));
    assert_eq!(s, Status::Pass);
    polyglot_encode_string(&mut s, Some(&mut e), None);
    assert_eq!(s, Status::NullPointer);
    assert_eq!(&e.as_slice()[..5], &[0x05, 0x0A, 0x02, 0xC3, 0xA9]);
    assert_eq!(&e.as_slice()[5..9], &[0x06, 0x05, 0x0A, 0x0A]);
}

#[test]
fn decoder_calls_read_and_report() {
    let mut e = Encoder::new();
    e.encode_none();
    e.encode_array(2, Kind::Bytes);
    e.encode_bytes(b"Test String");
    e.encode_string("Test String");
    e.encode_map(1, Kind::String, Kind::I64);
    e.encode_error("boom");
    e.encode_bool(true);
    e.encode_u8(32);
    e.encode_u16(1024);
    e.encode_u32(4294967290);
    e.encode_u64(18446744073709551610);
    e.encode_i32(-32);
    e.encode_i64(-32);
    e.encode_f32(1.5f32.to_bits());
    e.encode_f64(2.5f64.to_bits());

    let mut s = Status::Fail;
    let mut d = polyglot_new_decoder(&mut s, Some(e.as_slice())).unwrap();
    assert_eq!(s, Status::Pass);
    assert_eq!(polyglot_decode_none(&mut s, Some(&mut d)), true);
    assert_eq!(s, Status::Pass);
    assert_eq!(polyglot_decode_none(&mut s, Some(&mut d)), false);
    assert_eq!(polyglot_decode_array(&mut s, Some(&mut d), Kind::Bytes), 2);
    let buffer = polyglot_decode_bytes(&mut s, Some(&mut d)).unwrap();
    assert_eq!(s, Status::Pass);
    assert_eq!(buffer.length(), 11);
    assert_eq!(buffer.into_data(), b"Test String".to_vec());
    assert_eq!(polyglot_decode_string(&mut s, Some(&mut d)).unwrap(), "Test String");
    assert_eq!(polyglot_decode_map(&mut s, Some(&mut d), Kind::String, Kind::I64), 1);
    assert_eq!(polyglot_decode_error(&mut s, Some(&mut d)).unwrap(), "boom");
    assert_eq!(polyglot_decode_bool(&mut s, Some(&mut d)), true);
    assert_eq!(polyglot_decode_u8(&mut s, Some(&mut d)), 32);
    assert_eq!(polyglot_decode_u16(&mut s, Some(&mut d)), 1024);
    assert_eq!(polyglot_decode_u32(&mut s, Some(&mut d)), 4294967290);
    assert_eq!(polyglot_decode_u64(&mut s, Some(&mut d)), 18446744073709551610);
    assert_eq!(polyglot_decode_i32(&mut s, Some(&mut d)), -32);
    assert_eq!(polyglot_decode_i64(&mut s, Some(&mut d)), -32);
    assert_eq!(polyglot_decode_f32(&mut s, Some(&mut d)), 1.5f32.to_bits());
    assert_eq!(polyglot_decode_f64(&mut s, Some(&mut d)), 2.5f64.to_bits());
    assert_eq!(s, Status::Pass);
    assert_eq!(polyglot_decode_u32(&mut s, Some(&mut d)), 0);
    assert_eq!(s, Status::Fail);
}

#[test]
fn decode_failures_report_fail_and_sentinel() {
    let mut s = Status::Pass;
    let mut d = polyglot_new_decoder(&mut s, Some(&[][..])).unwrap();
    assert_eq!(polyglot_decode_none(&mut s, Some(&mut d)), false);
    assert_eq!(s, Status::Pass);
    assert_eq!(polyglot_decode_array(&mut s, Some(&mut d), Kind::U8), 0);
    assert_eq!(s, Status::Fail);
    let mut s = Status::Pass;
    assert!(polyglot_decode_bytes(&mut s, Some(&mut d)).is_none());
    assert_eq!(s, Status::Fail);
    let mut s = Status::Pass;
    assert!(polyglot_decode_string(&mut s, Some(&mut d)).is_none());
    assert_eq!(s, Status::Fail);
    let mut s = Status::Pass;
    assert_eq!(polyglot_decode_bool(&mut s, Some(&mut d)), false);
    assert_eq!(s, Status::Fail);
}

#[test]
fn decoded_string_with_nul_fails() {
    let mut s = Status::Pass;
    let mut d = polyglot_new_decoder(&mut s, Some(&[0x05, 0x0A, 0x03, b'a', 0x00, b'b'][..]))
        .unwrap();
    assert!(polyglot_decode_string(&mut s, Some(&mut d)).is_none());
    assert_eq!(s, Status::Fail);
    assert_eq!(d.position(), 6);
}

#[test]
fn new_decoder_copies_its_input() {
    let mut s = Status::Fail;
    let mut input = vec![0x08u8, 0x20];
    let mut d = polyglot_new_decoder(&mut s, Some(&input)).unwrap();
    input[1] = 0x21;
    assert_eq!(polyglot_decode_u8(&mut s, Some(&mut d)), 0x20);
    assert_eq!(s, Status::Pass);
}

#[test]
fn encoder_new_fills_present_slot() {
    let mut slot: Option<Encoder> = None;
    assert_eq!(encoder_new(Some(&mut slot)), PolyglotStatus::Pass);
    assert_eq!(slot.unwrap().size(), 0);
    assert_eq!(encoder_new(None), PolyglotStatus::NullPointer);
}

#[test]
fn buffer_keeps_its_bytes() {
    let b = Buffer::new_raw(vec![1, 2, 3], 3);
    assert_eq!(b.length(), 3);
    assert_eq!(b.into_data(), vec![1, 2, 3]);
    Status::check_not_null(Some(&Status::Pass));
}
