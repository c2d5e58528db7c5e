//! The decisions behind the C-callable surface: every call takes a status
//! slot and handles that may be missing (a null pointer on the C side), and
//! reports `NullPointer`, `Fail` or `Pass` with a sentinel or a result.
use vstd::prelude::*;
use vstd::utf8::{decode_utf8, decode_utf8_encode_utf8, encode_utf8, valid_utf8};

use crate::decoder::{copy_range, string_from_utf8, Decoder};
use crate::encoder::Encoder;
use crate::kind::Kind;
use crate::wire::{
    encode_value, parse_array_of, parse_bool, parse_bytes, parse_dict_of, parse_error, parse_f32,
    parse_f64, parse_i32, parse_i64, parse_text, parse_u16, parse_u32, parse_u64, parse_u8, tag_at,
    Value,
};

verus! {

/// The status reported across the C boundary.
#[derive(Clone, Copy, Debug, PartialEq, Eq, Structural)]
pub enum Status {
    Pass,
    Fail,
    NullPointer,
}

/// The status that `encoder_new` returns.
#[derive(Clone, Copy, Debug, PartialEq, Eq, Structural)]
pub enum PolyglotStatus {
    Pass,
    Fail,
    NullPointer,
}

impl Status {
    /// Every call needs a status slot to report into; a missing one breaks
    /// the calling contract, so the process stops before any work is done.
    pub fn check_not_null(status: Option<&Status>)
        requires
            status is Some,
    {
    }
}

/// A byte span handed out across the C boundary, which the caller gives back
/// to be released; its length always fits a `u32`.
pub struct Buffer {
    data: Vec<u8>,
    length: u32,
}

impl Buffer {
    #[verifier::type_invariant]
    spec fn inv(self) -> bool {
        self.data@.len() == self.length
    }

    /// The bytes of the span.
    pub closed spec fn bytes(&self) -> Seq<u8> {
        self.data@
    }

    /// A span over `data`, whose length is `length`.
    pub fn new_raw(data: Vec<u8>, length: u32) -> (r: Buffer)
        requires
            data@.len() == length,
        ensures
            r.bytes() == data@,
    {
        Buffer { data, length }
    }

    /// The number of bytes in the span.
    pub fn length(&self) -> (r: u32)
        ensures
            r == self.bytes().len(),
    {
        proof {
            use_type_invariant(self);
        }
        self.length
    }

    /// Gives up the span for its bytes.
    pub fn into_data(self) -> (r: Vec<u8>)
        ensures
            r@ == self.bytes(),
    {
        self.data
    }
}

/// What a read with outcome `p` reports: `Pass` and the value read, or
/// `Fail` and the sentinel.
pub open spec fn reports<T>(p: Option<(T, nat)>, status: Status, r: T, sentinel: T) -> bool {
    match p {
        Some((x, _)) => status == Status::Pass && r == x,
        None => status == Status::Fail && r == sentinel,
    }
}

/// Whether `b` holds a zero byte, which a C string cannot carry.
fn has_nul(b: &[u8]) -> (r: bool)
    ensures
        r == b@.contains(0u8),
{
    let mut i: usize = 0;
    while i < b.len()
        invariant
            i <= b@.len(),
            forall|j: int| 0 <= j < i ==> b@[j] != 0u8,
        decreases b@.len() - i,
    {
        if b[i] == 0 {
            return true;
        }
        i = i + 1;
    }
    false
}

/// A fresh encoder; creating one always succeeds.
pub fn polyglot_new_encoder(status: &mut Status) -> (r: Encoder)
    ensures
        *final(status) == Status::Pass,
        r@ == Seq::<u8>::empty(),
{
    *status = Status::Pass;
    Encoder::new()
}

/// Creates an encoder into `slot`, which must be present.
pub fn encoder_new(slot: Option<&mut Option<Encoder>>) -> (r: PolyglotStatus)
    ensures
        match slot {
            Some(s) => r == PolyglotStatus::Pass && (*final(s) matches Some(e) && e@ == Seq::<
                u8,
            >::empty()),
            None => r == PolyglotStatus::NullPointer,
        },
{
    match slot {
        Some(s) => {
            *s = Some(Encoder::new());
            PolyglotStatus::Pass
        },
        None => PolyglotStatus::NullPointer,
    }
}

/// The number of bytes written; `Fail` and `0` where that number does not
/// fit a `u32`.
pub fn polyglot_encoder_size(status: &mut Status, encoder: Option<&Encoder>) -> (r: u32)
    ensures
        match encoder {
            Some(e) => if e@.len() <= u32::MAX {
                *final(status) == Status::Pass && r == e@.len()
            } else {
                *final(status) == Status::Fail && r == 0
            },
            None => *final(status) == Status::NullPointer && r == 0,
        },
{
    match encoder {
        Some(e) => {
            let n = e.size();
            if n <= 0xffff_ffff {
                *status = Status::Pass;
                n as u32
            } else {
                *status = Status::Fail;
                0
            }
        },
        None => {
            *status = Status::NullPointer;
            0
        },
    }
}

/// Copies everything written into the front of `buffer`, whose other bytes
/// stay as they were; `Fail`, with `buffer` untouched, where it is too small.
pub fn polyglot_encoder_buffer(
    status: &mut Status,
    encoder: Option<&Encoder>,
    buffer: Option<&mut [u8]>,
)
    ensures
        match (encoder, buffer) {
            (Some(e), Some(b)) => if e@.len() <= b@.len() {
                *final(status) == Status::Pass && final(b)@ == e@ + b@.subrange(
                    e@.len() as int,
                    b@.len() as int,
                )
            } else {
                *final(status) == Status::Fail && final(b)@ == b@
            },
            (None, Some(b)) => *final(status) == Status::NullPointer && final(b)@ == b@,
            (_, None) => *final(status) == Status::NullPointer,
        },
{
    match (encoder, buffer) {
        (Some(e), Some(b)) => {
            let src = e.as_slice();
            if src.len() <= b.len() {
                let ghost old_b = b@;
                let mut i: usize = 0;
                while i < src.len()
                    invariant
                        i <= src@.len() <= b@.len(),
                        b@.len() == old_b.len(),
                        forall|j: int| 0 <= j < i ==> b@[j] == src@[j],
                        forall|j: int| src@.len() <= j < b@.len() ==> b@[j] == old_b[j],
                    decreases src@.len() - i,
                {
                    b[i] = src[i];
                    i = i + 1;
                }
                assert(b@ =~= e@ + old_b.subrange(e@.len() as int, old_b.len() as int));
                *status = Status::Pass;
            } else {
                *status = Status::Fail;
            }
        },
        _ => {
            *status = Status::NullPointer;
        },
    }
}

/// Appends the tag of an absent value.
pub fn polyglot_encode_none(status: &mut Status, encoder: Option<&mut Encoder>)
    ensures
        match encoder {
            Some(e) => *final(status) == Status::Pass && final(e)@ == e@ + encode_value(Value::Nil),
            None => *final(status) == Status::NullPointer,
        },
{
    match encoder {
        Some(e) => {
            e.encode_none();
            *status = Status::Pass;
        },
        None => {
            *status = Status::NullPointer;
        },
    }
}

/// Appends an array header.
pub fn polyglot_encode_array(status: &mut Status, encoder: Option<&mut Encoder>, array_size: u32, array_kind: Kind)
    ensures
        match encoder {
            Some(e) => *final(status) == Status::Pass && final(e)@ == e@ + encode_value(Value::Array(array_kind, array_size)),
            None => *final(status) == Status::NullPointer,
        },
{
    match encoder {
        Some(e) => {
            e.encode_array(array_size, array_kind);
            *status = Status::Pass;
        },
        None => {
            *status = Status::NullPointer;
        },
    }
}

/// Appends a map header.
pub fn polyglot_encode_map(status: &mut Status, encoder: Option<&mut Encoder>, map_size: u32, key_kind: Kind, value_kind: Kind)
    ensures
        match encoder {
            Some(e) => *final(status) == Status::Pass && final(e)@ == e@ + encode_value(Value::Dict(key_kind, value_kind, map_size)),
            None => *final(status) == Status::NullPointer,
        },
{
    match encoder {
        Some(e) => {
            e.encode_map(map_size, key_kind, value_kind);
            *status = Status::Pass;
        },
        None => {
            *status = Status::NullPointer;
        },
    }
}

/// Appends a boolean.
pub fn polyglot_encode_bool(status: &mut Status, encoder: Option<&mut Encoder>, value: bool)
    ensures
        match encoder {
            Some(e) => *final(status) == Status::Pass && final(e)@ == e@ + encode_value(Value::Bool(value)),
            None => *final(status) == Status::NullPointer,
        },
{
    match encoder {
        Some(e) => {
            e.encode_bool(value);
            *status = Status::Pass;
        },
        None => {
            *status = Status::NullPointer;
        },
    }
}

/// Appends a U8.
pub fn polyglot_encode_u8(status: &mut Status, encoder: Option<&mut Encoder>, value: u8)
    ensures
        match encoder {
            Some(e) => *final(status) == Status::Pass && final(e)@ == e@ + encode_value(Value::U8(value)),
            None => *final(status) == Status::NullPointer,
        },
{
    match encoder {
        Some(e) => {
            e.encode_u8(value);
            *status = Status::Pass;
        },
        None => {
            *status = Status::NullPointer;
        },
    }
}

/// Appends a U16.
pub fn polyglot_encode_u16(status: &mut Status, encoder: Option<&mut Encoder>, value: u16)
    ensures
        match encoder {
            Some(e) => *final(status) == Status::Pass && final(e)@ == e@ + encode_value(Value::U16(value)),
            None => *final(status) == Status::NullPointer,
        },
{
    match encoder {
        Some(e) => {
            e.encode_u16(value);
            *status = Status::Pass;
        },
        None => {
            *status = Status::NullPointer;
        },
    }
}

/// Appends a U32.
pub fn polyglot_encode_u32(status: &mut Status, encoder: Option<&mut Encoder>, value: u32)
    ensures
        match encoder {
            Some(e) => *final(status) == Status::Pass && final(e)@ == e@ + encode_value(Value::U32(value)),
            None => *final(status) == Status::NullPointer,
        },
{
    match encoder {
        Some(e) => {
            e.encode_u32(value);
            *status = Status::Pass;
        },
        None => {
            *status = Status::NullPointer;
        },
    }
}

/// Appends a U64.
pub fn polyglot_encode_u64(status: &mut Status, encoder: Option<&mut Encoder>, value: u64)
    ensures
        match encoder {
            Some(e) => *final(status) == Status::Pass && final(e)@ == e@ + encode_value(Value::U64(value)),
            None => *final(status) == Status::NullPointer,
        },
{
    match encoder {
        Some(e) => {
            e.encode_u64(value);
            *status = Status::Pass;
        },
        None => {
            *status = Status::NullPointer;
        },
    }
}

/// Appends a I32.
pub fn polyglot_encode_i32(status: &mut Status, encoder: Option<&mut Encoder>, value: i32)
    ensures
        match encoder {
            Some(e) => *final(status) == Status::Pass && final(e)@ == e@ + encode_value(Value::I32(value)),
            None => *final(status) == Status::NullPointer,
        },
{
    match encoder {
        Some(e) => {
            e.encode_i32(value);
            *status = Status::Pass;
        },
        None => {
            *status = Status::NullPointer;
        },
    }
}

/// Appends a I64.
pub fn polyglot_encode_i64(status: &mut Status, encoder: Option<&mut Encoder>, value: i64)
    ensures
        match encoder {
            Some(e) => *final(status) == Status::Pass && final(e)@ == e@ + encode_value(Value::I64(value)),
            None => *final(status) == Status::NullPointer,
        },
{
    match encoder {
        Some(e) => {
            e.encode_i64(value);
            *status = Status::Pass;
        },
        None => {
            *status = Status::NullPointer;
        },
    }
}

/// Appends an F32 given by its IEEE-754 bit pattern.
pub fn polyglot_encode_f32(status: &mut Status, encoder: Option<&mut Encoder>, bits: u32)
    ensures
        match encoder {
            Some(e) => *final(status) == Status::Pass && final(e)@ == e@ + encode_value(Value::F32(bits)),
            None => *final(status) == Status::NullPointer,
        },
{
    match encoder {
        Some(e) => {
            e.encode_f32(bits);
            *status = Status::Pass;
        },
        None => {
            *status = Status::NullPointer;
        },
    }
}

/// Appends an F64 given by its IEEE-754 bit pattern.
pub fn polyglot_encode_f64(status: &mut Status, encoder: Option<&mut Encoder>, bits: u64)
    ensures
        match encoder {
            Some(e) => *final(status) == Status::Pass && final(e)@ == e@ + encode_value(Value::F64(bits)),
            None => *final(status) == Status::NullPointer,
        },
{
    match encoder {
        Some(e) => {
            e.encode_f64(bits);
            *status = Status::Pass;
        },
        None => {
            *status = Status::NullPointer;
        },
    }
}

/// Appends a byte blob; `Fail`, with nothing written, where it is longer than
/// a U32 can state.
pub fn polyglot_encode_bytes(
    status: &mut Status,
    encoder: Option<&mut Encoder>,
    buffer: Option<&[u8]>,
)
    ensures
        match (encoder, buffer) {
            (Some(e), Some(b)) => if b@.len() <= u32::MAX {
                *final(status) == Status::Pass && final(e)@ == e@ + encode_value(Value::Bytes(b@))
            } else {
                *final(status) == Status::Fail && final(e)@ == e@
            },
            (Some(e), None) => *final(status) == Status::NullPointer && final(e)@ == e@,
            (None, _) => *final(status) == Status::NullPointer,
        },
{
    match (encoder, buffer) {
        (Some(e), Some(b)) => {
            if b.len() <= 0xffff_ffff {
                e.encode_bytes(b);
                *status = Status::Pass;
            } else {
                *status = Status::Fail;
            }
        },
        _ => {
            *status = Status::NullPointer;
        },
    }
}

/// Appends the string whose UTF-8 bytes are `string`; `Fail`, with nothing
/// written, where those bytes are not UTF-8 or are longer than a U32 can state.
pub fn polyglot_encode_string(
    status: &mut Status,
    encoder: Option<&mut Encoder>,
    string: Option<&[u8]>,
)
    ensures
        match (encoder, string) {
            (Some(e), Some(b)) => if valid_utf8(b@) && b@.len() <= u32::MAX {
                *final(status) == Status::Pass && final(e)@ == e@ + encode_value(
                    Value::Text(decode_utf8(b@)),
                )
            } else {
                *final(status) == Status::Fail && final(e)@ == e@
            },
            (Some(e), None) => *final(status) == Status::NullPointer && final(e)@ == e@,
            (None, _) => *final(status) == Status::NullPointer,
        },
{
    match (encoder, string) {
        (Some(e), Some(b)) => {
            if b.len() > 0xffff_ffff {
                *status = Status::Fail;
                return ;
            }
            match string_from_utf8(copy_range(b, 0, b.len())) {
                Some(t) => {
                    proof {
                        assert(b@.subrange(0, b@.len() as int) =~= b@);
                        decode_utf8_encode_utf8(b@);
                    }
                    e.encode_string(t.as_str());
                    *status = Status::Pass;
                },
                None => {
                    assert(b@.subrange(0, b@.len() as int) =~= b@);
                    *status = Status::Fail;
                },
            }
        },
        _ => {
            *status = Status::NullPointer;
        },
    }
}

/// Appends an error whose message has the UTF-8 bytes `string`; `Fail`, with nothing
/// written, where those bytes are not UTF-8 or are longer than a U32 can state.
pub fn polyglot_encode_error(
    status: &mut Status,
    encoder: Option<&mut Encoder>,
    string: Option<&[u8]>,
)
    ensures
        match (encoder, string) {
            (Some(e), Some(b)) => if valid_utf8(b@) && b@.len() <= u32::MAX {
                *final(status) == Status::Pass && final(e)@ == e@ + encode_value(
                    Value::Error(decode_utf8(b@)),
                )
            } else {
                *final(status) == Status::Fail && final(e)@ == e@
            },
            (Some(e), None) => *final(status) == Status::NullPointer && final(e)@ == e@,
            (None, _) => *final(status) == Status::NullPointer,
        },
{
    match (encoder, string) {
        (Some(e), Some(b)) => {
            if b.len() > 0xffff_ffff {
                *status = Status::Fail;
                return ;
            }
            match string_from_utf8(copy_range(b, 0, b.len())) {
                Some(t) => {
                    proof {
                        assert(b@.subrange(0, b@.len() as int) =~= b@);
                        decode_utf8_encode_utf8(b@);
                    }
                    e.encode_error(t.as_str());
                    *status = Status::Pass;
                },
                None => {
                    assert(b@.subrange(0, b@.len() as int) =~= b@);
                    *status = Status::Fail;
                },
            }
        },
        _ => {
            *status = Status::NullPointer;
        },
    }
}

/// A decoder over a copy of `buffer`.
pub fn polyglot_new_decoder(status: &mut Status, buffer: Option<&[u8]>) -> (r: Option<Decoder>)
    ensures
        match buffer {
            Some(b) => *final(status) == Status::Pass && (r matches Some(d) && d.data() == b@
                && d.pos() == 0),
            None => *final(status) == Status::NullPointer && r is None,
        },
{
    match buffer {
        Some(b) => {
            let bytes = copy_range(b, 0, b.len());
            assert(b@.subrange(0, b@.len() as int) =~= b@);
            *status = Status::Pass;
            Some(Decoder::new(bytes))
        },
        None => {
            *status = Status::NullPointer;
            None
        },
    }
}

/// Probes for an absent value; see `Decoder::decode_none`.
pub fn polyglot_decode_none(status: &mut Status, decoder: Option<&mut Decoder>) -> (r: bool)
    ensures
        match decoder {
            Some(d) => *final(status) == Status::Pass && r == tag_at(d.data(), d.pos(), Kind::Nil)
                && final(d).data() == d.data() && final(d).pos() == d.pos() + if r {
                1nat
            } else {
                0nat
            },
            None => *final(status) == Status::NullPointer && !r,
        },
{
    match decoder {
        Some(d) => {
            *status = Status::Pass;
            d.decode_none()
        },
        None => {
            *status = Status::NullPointer;
            false
        },
    }
}

/// Reads an array header of element kind `array_kind`; its length, or `0`.
pub fn polyglot_decode_array(
    status: &mut Status,
    decoder: Option<&mut Decoder>,
    array_kind: Kind,
) -> (r: u32)
    ensures
        match decoder {
            Some(d) => (*d).stepped(*final(d), parse_array_of(d.data(), d.pos(), array_kind))
                && reports(parse_array_of(d.data(), d.pos(), array_kind), *final(status), r, 0),
            None => *final(status) == Status::NullPointer && r == 0,
        },
{
    match decoder {
        Some(d) => match d.decode_array(array_kind) {
            Ok(n) => {
                *status = Status::Pass;
                n
            },
            Err(_) => {
                *status = Status::Fail;
                0
            },
        },
        None => {
            *status = Status::NullPointer;
            0
        },
    }
}

/// Reads a map header of the given key and value kinds; its length, or `0`.
pub fn polyglot_decode_map(
    status: &mut Status,
    decoder: Option<&mut Decoder>,
    key_kind: Kind,
    value_kind: Kind,
) -> (r: u32)
    ensures
        match decoder {
            Some(d) => (*d).stepped(
                *final(d),
                parse_dict_of(d.data(), d.pos(), key_kind, value_kind),
            ) && reports(
                parse_dict_of(d.data(), d.pos(), key_kind, value_kind),
                *final(status),
                r,
                0,
            ),
            None => *final(status) == Status::NullPointer && r == 0,
        },
{
    match decoder {
        Some(d) => match d.decode_map(key_kind, value_kind) {
            Ok(n) => {
                *status = Status::Pass;
                n
            },
            Err(_) => {
                *status = Status::Fail;
                0
            },
        },
        None => {
            *status = Status::NullPointer;
            0
        },
    }
}

/// Reads a byte blob into a span that the caller releases.
pub fn polyglot_decode_bytes(status: &mut Status, decoder: Option<&mut Decoder>) -> (r: Option<
    Buffer,
>)
    ensures
        match decoder {
            Some(d) => (*d).stepped(*final(d), parse_bytes(d.data(), d.pos())) && match parse_bytes(
                d.data(),
                d.pos(),
            ) {
                Some((b, _)) => *final(status) == Status::Pass && (r matches Some(buf)
                    && buf.bytes() == b),
                None => *final(status) == Status::Fail && r is None,
            },
            None => *final(status) == Status::NullPointer && r is None,
        },
{
    match decoder {
        Some(d) => match d.decode_bytes() {
            Ok(b) => {
                *status = Status::Pass;
                let n = b.len() as u32;
                Some(Buffer::new_raw(b, n))
            },
            Err(_) => {
                *status = Status::Fail;
                None
            },
        },
        None => {
            *status = Status::NullPointer;
            None
        },
    }
}

/// Reads a string for the C side; `Fail` where it holds a zero byte, which
/// a C string cannot carry.
pub fn polyglot_decode_string(status: &mut Status, decoder: Option<&mut Decoder>) -> (r: Option<
    String,
>)
    ensures
        match decoder {
            Some(d) => (*d).stepped(*final(d), parse_text(d.data(), d.pos())) && match parse_text(
                d.data(),
                d.pos(),
            ) {
                Some((t, _)) => if encode_utf8(t).contains(0u8) {
                    *final(status) == Status::Fail && r is None
                } else {
                    *final(status) == Status::Pass && (r matches Some(x) && x@ == t)
                },
                None => *final(status) == Status::Fail && r is None,
            },
            None => *final(status) == Status::NullPointer && r is None,
        },
{
    match decoder {
        Some(d) => match d.decode_string() {
            Ok(t) => {
                if has_nul(t.as_str().as_bytes()) {
                    *status = Status::Fail;
                    None
                } else {
                    *status = Status::Pass;
                    Some(t)
                }
            },
            Err(_) => {
                *status = Status::Fail;
                None
            },
        },
        None => {
            *status = Status::NullPointer;
            None
        },
    }
}

/// Reads an error's message for the C side; `Fail` where it holds a zero byte, which
/// a C string cannot carry.
pub fn polyglot_decode_error(status: &mut Status, decoder: Option<&mut Decoder>) -> (r: Option<
    String,
>)
    ensures
        match decoder {
            Some(d) => (*d).stepped(*final(d), parse_error(d.data(), d.pos())) && match parse_error(
                d.data(),
                d.pos(),
            ) {
                Some((t, _)) => if encode_utf8(t).contains(0u8) {
                    *final(status) == Status::Fail && r is None
                } else {
                    *final(status) == Status::Pass && (r matches Some(x) && x@ == t)
                },
                None => *final(status) == Status::Fail && r is None,
            },
            None => *final(status) == Status::NullPointer && r is None,
        },
{
    match decoder {
        Some(d) => match d.decode_error() {
            Ok(t) => {
                if has_nul(t.as_str().as_bytes()) {
                    *status = Status::Fail;
                    None
                } else {
                    *status = Status::Pass;
                    Some(t)
                }
            },
            Err(_) => {
                *status = Status::Fail;
                None
            },
        },
        None => {
            *status = Status::NullPointer;
            None
        },
    }
}

/// Reads a boolean; `false` on failure.
pub fn polyglot_decode_bool(status: &mut Status, decoder: Option<&mut Decoder>) -> (r: bool)
    ensures
        match decoder {
            Some(d) => (*d).stepped(*final(d), parse_bool(d.data(), d.pos())) && reports(
                parse_bool(d.data(), d.pos()),
                *final(status),
                r,
                false,
            ),
            None => *final(status) == Status::NullPointer && r == false,
        },
{
    match decoder {
        Some(d) => match d.decode_bool() {
            Ok(v) => {
                *status = Status::Pass;
                v
            },
            Err(_) => {
                *status = Status::Fail;
                false
            },
        },
        None => {
            *status = Status::NullPointer;
            false
        },
    }
}

/// Reads a U8; `0` on failure.
pub fn polyglot_decode_u8(status: &mut Status, decoder: Option<&mut Decoder>) -> (r: u8)
    ensures
        match decoder {
            Some(d) => (*d).stepped(*final(d), parse_u8(d.data(), d.pos())) && reports(
                parse_u8(d.data(), d.pos()),
                *final(status),
                r,
                0,
            ),
            None => *final(status) == Status::NullPointer && r == 0,
        },
{
    match decoder {
        Some(d) => match d.decode_u8() {
            Ok(v) => {
                *status = Status::Pass;
                v
            },
            Err(_) => {
                *status = Status::Fail;
                0
            },
        },
        None => {
            *status = Status::NullPointer;
            0
        },
    }
}

/// Reads a U16; `0` on failure.
pub fn polyglot_decode_u16(status: &mut Status, decoder: Option<&mut Decoder>) -> (r: u16)
    ensures
        match decoder {
            Some(d) => (*d).stepped(*final(d), parse_u16(d.data(), d.pos())) && reports(
                parse_u16(d.data(), d.pos()),
                *final(status),
                r,
                0,
            ),
            None => *final(status) == Status::NullPointer && r == 0,
        },
{
    match decoder {
        Some(d) => match d.decode_u16() {
            Ok(v) => {
                *status = Status::Pass;
                v
            },
            Err(_) => {
                *status = Status::Fail;
                0
            },
        },
        None => {
            *status = Status::NullPointer;
            0
        },
    }
}

/// Reads a U32; `0` on failure.
pub fn polyglot_decode_u32(status: &mut Status, decoder: Option<&mut Decoder>) -> (r: u32)
    ensures
        match decoder {
            Some(d) => (*d).stepped(*final(d), parse_u32(d.data(), d.pos())) && reports(
                parse_u32(d.data(), d.pos()),
                *final(status),
                r,
                0,
            ),
            None => *final(status) == Status::NullPointer && r == 0,
        },
{
    match decoder {
        Some(d) => match d.decode_u32() {
            Ok(v) => {
                *status = Status::Pass;
                v
            },
            Err(_) => {
                *status = Status::Fail;
                0
            },
        },
        None => {
            *status = Status::NullPointer;
            0
        },
    }
}

/// Reads a U64; `0` on failure.
pub fn polyglot_decode_u64(status: &mut Status, decoder: Option<&mut Decoder>) -> (r: u64)
    ensures
        match decoder {
            Some(d) => (*d).stepped(*final(d), parse_u64(d.data(), d.pos())) && reports(
                parse_u64(d.data(), d.pos()),
                *final(status),
                r,
                0,
            ),
            None => *final(status) == Status::NullPointer && r == 0,
        },
{
    match decoder {
        Some(d) => match d.decode_u64() {
            Ok(v) => {
                *status = Status::Pass;
                v
            },
            Err(_) => {
                *status = Status::Fail;
                0
            },
        },
        None => {
            *status = Status::NullPointer;
            0
        },
    }
}

/// Reads a I32; `0` on failure.
pub fn polyglot_decode_i32(status: &mut Status, decoder: Option<&mut Decoder>) -> (r: i32)
    ensures
        match decoder {
            Some(d) => (*d).stepped(*final(d), parse_i32(d.data(), d.pos())) && reports(
                parse_i32(d.data(), d.pos()),
                *final(status),
                r,
                0,
            ),
            None => *final(status) == Status::NullPointer && r == 0,
        },
{
    match decoder {
        Some(d) => match d.decode_i32() {
            Ok(v) => {
                *status = Status::Pass;
                v
            },
            Err(_) => {
                *status = Status::Fail;
                0
            },
        },
        None => {
            *status = Status::NullPointer;
            0
        },
    }
}

/// Reads a I64; `0` on failure.
pub fn polyglot_decode_i64(status: &mut Status, decoder: Option<&mut Decoder>) -> (r: i64)
    ensures
        match decoder {
            Some(d) => (*d).stepped(*final(d), parse_i64(d.data(), d.pos())) && reports(
                parse_i64(d.data(), d.pos()),
                *final(status),
                r,
                0,
            ),
            None => *final(status) == Status::NullPointer && r == 0,
        },
{
    match decoder {
        Some(d) => match d.decode_i64() {
            Ok(v) => {
                *status = Status::Pass;
                v
            },
            Err(_) => {
                *status = Status::Fail;
                0
            },
        },
        None => {
            *status = Status::NullPointer;
            0
        },
    }
}

/// Reads the bit pattern of an F32; `0` on failure.
pub fn polyglot_decode_f32(status: &mut Status, decoder: Option<&mut Decoder>) -> (r: u32)
    ensures
        match decoder {
            Some(d) => (*d).stepped(*final(d), parse_f32(d.data(), d.pos())) && reports(
                parse_f32(d.data(), d.pos()),
                *final(status),
                r,
                0,
            ),
            None => *final(status) == Status::NullPointer && r == 0,
        },
{
    match decoder {
        Some(d) => match d.decode_f32() {
            Ok(v) => {
                *status = Status::Pass;
                v
            },
            Err(_) => {
                *status = Status::Fail;
                0
            },
        },
        None => {
            *status = Status::NullPointer;
            0
        },
    }
}

/// Reads the bit pattern of an F64; `0` on failure.
pub fn polyglot_decode_f64(status: &mut Status, decoder: Option<&mut Decoder>) -> (r: u64)
    ensures
        match decoder {
            Some(d) => (*d).stepped(*final(d), parse_f64(d.data(), d.pos())) && reports(
                parse_f64(d.data(), d.pos()),
                *final(status),
                r,
                0,
            ),
            None => *final(status) == Status::NullPointer && r == 0,
        },
{
    match decoder {
        Some(d) => match d.decode_f64() {
            Ok(v) => {
                *status = Status::Pass;
                v
            },
            Err(_) => {
                *status = Status::Fail;
                0
            },
        },
        None => {
            *status = Status::NullPointer;
            0
        },
    }
}

} // verus!
