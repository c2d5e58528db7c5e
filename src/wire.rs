//! The wire format as mathematics: what each value encodes to, and what a
//! reader recovers from a byte sequence at a given position.
use vstd::prelude::*;
use vstd::utf8::*;

use crate::kind::Kind;

verus! {

/// One value of the format, as an encoder is asked to write it.
///
/// Floats are carried by their IEEE-754 bit patterns; strings by their
/// characters, which travel as UTF-8.
pub enum Value {
    Nil,
    Array(Kind, u32),
    Dict(Kind, Kind, u32),
    Bytes(Seq<u8>),
    Text(Seq<char>),
    Error(Seq<char>),
    Bool(bool),
    U8(u8),
    U16(u16),
    U32(u32),
    U64(u64),
    I32(i32),
    I64(i64),
    F32(u32),
    F64(u64),
}

impl Value {
    /// The kind whose tag the value is written under.
    pub open spec fn kind(self) -> Kind {
        match self {
            Value::Nil => Kind::Nil,
            Value::Array(_, _) => Kind::Array,
            Value::Dict(_, _, _) => Kind::Dict,
            Value::Bytes(_) => Kind::Bytes,
            Value::Text(_) => Kind::String,
            Value::Error(_) => Kind::Error,
            Value::Bool(_) => Kind::Bool,
            Value::U8(_) => Kind::U8,
            Value::U16(_) => Kind::U16,
            Value::U32(_) => Kind::U32,
            Value::U64(_) => Kind::U64,
            Value::I32(_) => Kind::I32,
            Value::I64(_) => Kind::I64,
            Value::F32(_) => Kind::F32,
            Value::F64(_) => Kind::F64,
        }
    }

    /// The values the format can carry: element kinds of composites are real
    /// kinds, and byte payloads have a length that a U32 can state.
    pub open spec fn valid(self) -> bool {
        match self {
            Value::Array(k, _) => k.is_wire_kind(),
            Value::Dict(k, w, _) => k.is_wire_kind() && w.is_wire_kind(),
            Value::Bytes(b) => b.len() <= u32::MAX,
            Value::Text(t) => encode_utf8(t).len() <= u32::MAX,
            Value::Error(t) => encode_utf8(t).len() <= u32::MAX,
            _ => true,
        }
    }
}

/// Unsigned LEB128: seven bits at a time, lowest group first, with the high
/// bit set on every byte but the last; zero is the single byte `0x00`.
pub open spec fn varuint(v: nat) -> Seq<u8>
    decreases v,
{
    if v < 128 {
        seq![v as u8]
    } else {
        seq![(v % 128 + 128) as u8] + varuint(v / 128)
    }
}

/// Zig-zag: `0, -1, 1, -2, 2, ...` map to `0, 1, 2, 3, 4, ...`; for a width
/// of `w` bits this is `(n << 1) ^ (n >> (w - 1))`.
pub open spec fn zigzag(n: int) -> nat {
    if n >= 0 {
        (2 * n) as nat
    } else {
        (-2 * n - 1) as nat
    }
}

/// The inverse of `zigzag`.
pub open spec fn unzigzag(u: nat) -> int {
    if u % 2 == 0 {
        (u / 2) as int
    } else {
        -((u + 1) / 2)
    }
}

/// The four bytes of a 32-bit pattern, most significant first.
pub open spec fn be32(x: u32) -> Seq<u8> {
    seq![(x >> 24u32) as u8, (x >> 16u32) as u8, (x >> 8u32) as u8, x as u8]
}

/// The eight bytes of a 64-bit pattern, most significant first.
pub open spec fn be64(x: u64) -> Seq<u8> {
    seq![
        (x >> 56u64) as u8,
        (x >> 48u64) as u8,
        (x >> 40u64) as u8,
        (x >> 32u64) as u8,
        (x >> 24u64) as u8,
        (x >> 16u64) as u8,
        (x >> 8u64) as u8,
        x as u8,
    ]
}

/// A fully tagged U32: its tag, then the varuint.
pub open spec fn tagged_u32(n: nat) -> Seq<u8> {
    seq![Kind::U32.code()] + varuint(n)
}

/// The bytes after the tag.
pub open spec fn payload(v: Value) -> Seq<u8> {
    match v {
        Value::Nil => seq![],
        Value::Array(k, n) => seq![k.code()] + tagged_u32(n as nat),
        Value::Dict(k, w, n) => seq![k.code(), w.code()] + tagged_u32(n as nat),
        Value::Bytes(b) => tagged_u32(b.len()) + b,
        Value::Text(t) => tagged_u32(encode_utf8(t).len()) + encode_utf8(t),
        Value::Error(t) => seq![Kind::String.code()] + tagged_u32(encode_utf8(t).len())
            + encode_utf8(t),
        Value::Bool(b) => seq![if b { 1u8 } else { 0u8 }],
        Value::U8(x) => seq![x],
        Value::U16(x) => varuint(x as nat),
        Value::U32(x) => varuint(x as nat),
        Value::U64(x) => varuint(x as nat),
        Value::I32(x) => varuint(zigzag(x as int)),
        Value::I64(x) => varuint(zigzag(x as int)),
        Value::F32(x) => be32(x),
        Value::F64(x) => be64(x),
    }
}

/// The encoding of a value: its kind's tag, then its payload.
pub open spec fn encode_value(v: Value) -> Seq<u8> {
    seq![v.kind().code()] + payload(v)
}

/// Whether `e` stands in `s` from position `i` on.
pub open spec fn stands_at(s: Seq<u8>, i: nat, e: Seq<u8>) -> bool {
    i + e.len() <= s.len() && s.subrange(i as int, i + e.len() as int) == e
}

/// Whether the byte at `i` is the tag of `k`.
pub open spec fn tag_at(s: Seq<u8>, i: nat, k: Kind) -> bool {
    i < s.len() && s[i as int] == k.code()
}

/// A varuint of at most `limit` bytes read at `i`: its value and its length.
pub open spec fn parse_varuint(s: Seq<u8>, i: nat, limit: nat) -> Option<(nat, nat)>
    decreases limit,
{
    if limit == 0 || i >= s.len() {
        None
    } else if s[i as int] < 128 {
        Some((s[i as int] as nat, 1))
    } else {
        match parse_varuint(s, i + 1, (limit - 1) as nat) {
            Some((v, n)) => Some(((s[i as int] - 128) as nat + 128 * v, n + 1)),
            None => None,
        }
    }
}

/// A tag of `k`, then a varuint of at most `limit` bytes whose value is at
/// most `max`: the value and the count of bytes, tag included.
pub open spec fn parse_tagged(s: Seq<u8>, i: nat, k: Kind, limit: nat, max: nat) -> Option<
    (nat, nat),
> {
    if tag_at(s, i, k) {
        match parse_varuint(s, i + 1, limit) {
            Some((v, n)) => if v <= max {
                Some((v, n + 1))
            } else {
                None
            },
            None => None,
        }
    } else {
        None
    }
}

pub open spec fn parse_u16(s: Seq<u8>, i: nat) -> Option<(u16, nat)> {
    match parse_tagged(s, i, Kind::U16, 3, u16::MAX as nat) {
        Some((v, n)) => Some((v as u16, n)),
        None => None,
    }
}

pub open spec fn parse_u32(s: Seq<u8>, i: nat) -> Option<(u32, nat)> {
    match parse_tagged(s, i, Kind::U32, 5, u32::MAX as nat) {
        Some((v, n)) => Some((v as u32, n)),
        None => None,
    }
}

pub open spec fn parse_u64(s: Seq<u8>, i: nat) -> Option<(u64, nat)> {
    match parse_tagged(s, i, Kind::U64, 10, u64::MAX as nat) {
        Some((v, n)) => Some((v as u64, n)),
        None => None,
    }
}

pub open spec fn parse_i32(s: Seq<u8>, i: nat) -> Option<(i32, nat)> {
    match parse_tagged(s, i, Kind::I32, 5, u32::MAX as nat) {
        Some((v, n)) => Some((unzigzag(v) as i32, n)),
        None => None,
    }
}

pub open spec fn parse_i64(s: Seq<u8>, i: nat) -> Option<(i64, nat)> {
    match parse_tagged(s, i, Kind::I64, 10, u64::MAX as nat) {
        Some((v, n)) => Some((unzigzag(v) as i64, n)),
        None => None,
    }
}

pub open spec fn parse_u8(s: Seq<u8>, i: nat) -> Option<(u8, nat)> {
    if tag_at(s, i, Kind::U8) && i + 1 < s.len() {
        Some((s[i + 1int], 2))
    } else {
        None
    }
}

/// Any second byte other than zero reads as `true`.
pub open spec fn parse_bool(s: Seq<u8>, i: nat) -> Option<(bool, nat)> {
    if tag_at(s, i, Kind::Bool) && i + 1 < s.len() {
        Some((s[i + 1int] != 0, 2))
    } else {
        None
    }
}

/// The 32-bit pattern whose big-endian bytes start at `j`.
pub open spec fn from_be32(s: Seq<u8>, j: int) -> u32 {
    (s[j] as u32) << 24u32 | (s[j + 1] as u32) << 16u32 | (s[j + 2] as u32) << 8u32 | (
    s[j + 3] as u32)
}

/// The 64-bit pattern whose big-endian bytes start at `j`.
pub open spec fn from_be64(s: Seq<u8>, j: int) -> u64 {
    (s[j] as u64) << 56u64 | (s[j + 1] as u64) << 48u64 | (s[j + 2] as u64) << 40u64 | (s[j
        + 3] as u64) << 32u64 | (s[j + 4] as u64) << 24u64 | (s[j + 5] as u64) << 16u64 | (s[j
        + 6] as u64) << 8u64 | (s[j + 7] as u64)
}

pub open spec fn parse_f32(s: Seq<u8>, i: nat) -> Option<(u32, nat)> {
    if tag_at(s, i, Kind::F32) && i + 4 < s.len() {
        Some((from_be32(s, i + 1int), 5))
    } else {
        None
    }
}

pub open spec fn parse_f64(s: Seq<u8>, i: nat) -> Option<(u64, nat)> {
    if tag_at(s, i, Kind::F64) && i + 8 < s.len() {
        Some((from_be64(s, i + 1int), 9))
    } else {
        None
    }
}

/// An array header: the element kind found and the announced length.
pub open spec fn parse_array(s: Seq<u8>, i: nat) -> Option<((Kind, u32), nat)> {
    if tag_at(s, i, Kind::Array) && i + 1 < s.len() && s[i + 1int] < 0x10 {
        match parse_u32(s, i + 2) {
            Some((n, c)) => Some(((Kind::from_code(s[i + 1int]), n), c + 2)),
            None => None,
        }
    } else {
        None
    }
}

/// A map header: the key and value kinds found and the announced length.
pub open spec fn parse_dict(s: Seq<u8>, i: nat) -> Option<((Kind, Kind, u32), nat)> {
    if tag_at(s, i, Kind::Dict) && i + 2 < s.len() && s[i + 1int] < 0x10 && s[i + 2int] < 0x10 {
        match parse_u32(s, i + 3) {
            Some((n, c)) => Some(((Kind::from_code(s[i + 1int]), Kind::from_code(s[i + 2int]), n), c + 3)),
            None => None,
        }
    } else {
        None
    }
}

/// An array header whose element kind is `k`: its length.
pub open spec fn parse_array_of(s: Seq<u8>, i: nat, k: Kind) -> Option<(u32, nat)> {
    match parse_array(s, i) {
        Some(((e, n), c)) => if e == k {
            Some((n, c))
        } else {
            None
        },
        None => None,
    }
}

/// A map header whose key and value kinds are `k` and `w`: its length.
pub open spec fn parse_dict_of(s: Seq<u8>, i: nat, k: Kind, w: Kind) -> Option<(u32, nat)> {
    match parse_dict(s, i) {
        Some(((e, f, n), c)) => if e == k && f == w {
            Some((n, c))
        } else {
            None
        },
        None => None,
    }
}

/// The tag of `k`, a tagged U32 length, then that many bytes: those bytes.
pub open spec fn parse_span(s: Seq<u8>, i: nat, k: Kind) -> Option<(Seq<u8>, nat)> {
    if tag_at(s, i, k) {
        match parse_u32(s, i + 1) {
            Some((n, c)) => if i + 1 + c + n <= s.len() {
                Some((s.subrange((i + 1 + c) as int, i + 1 + c + n), (1 + c + n) as nat))
            } else {
                None
            },
            None => None,
        }
    } else {
        None
    }
}

pub open spec fn parse_bytes(s: Seq<u8>, i: nat) -> Option<(Seq<u8>, nat)> {
    parse_span(s, i, Kind::Bytes)
}

/// A string: its bytes must be well-formed UTF-8.
pub open spec fn parse_text(s: Seq<u8>, i: nat) -> Option<(Seq<char>, nat)> {
    match parse_span(s, i, Kind::String) {
        Some((b, n)) => if valid_utf8(b) {
            Some((decode_utf8(b), n))
        } else {
            None
        },
        None => None,
    }
}

/// An error: its tag, then a whole string.
pub open spec fn parse_error(s: Seq<u8>, i: nat) -> Option<(Seq<char>, nat)> {
    if tag_at(s, i, Kind::Error) {
        match parse_text(s, i + 1) {
            Some((t, n)) => Some((t, n + 1)),
            None => None,
        }
    } else {
        None
    }
}

/// What a reader expecting kind `k` at `i` recovers, and how many bytes it
/// takes; `None` where the bytes there are no value of that kind.
pub open spec fn parse_value(k: Kind, s: Seq<u8>, i: nat) -> Option<(Value, nat)> {
    match k {
        Kind::Nil => if tag_at(s, i, Kind::Nil) {
            Some((Value::Nil, 1))
        } else {
            None
        },
        Kind::Array => match parse_array(s, i) {
            Some(((e, n), c)) => Some((Value::Array(e, n), c)),
            None => None,
        },
        Kind::Dict => match parse_dict(s, i) {
            Some(((e, f, n), c)) => Some((Value::Dict(e, f, n), c)),
            None => None,
        },
        Kind::Bytes => match parse_bytes(s, i) {
            Some((b, c)) => Some((Value::Bytes(b), c)),
            None => None,
        },
        Kind::String => match parse_text(s, i) {
            Some((t, c)) => Some((Value::Text(t), c)),
            None => None,
        },
        Kind::Error => match parse_error(s, i) {
            Some((t, c)) => Some((Value::Error(t), c)),
            None => None,
        },
        Kind::Bool => match parse_bool(s, i) {
            Some((b, c)) => Some((Value::Bool(b), c)),
            None => None,
        },
        Kind::U8 => match parse_u8(s, i) {
            Some((x, c)) => Some((Value::U8(x), c)),
            None => None,
        },
        Kind::U16 => match parse_u16(s, i) {
            Some((x, c)) => Some((Value::U16(x), c)),
            None => None,
        },
        Kind::U32 => match parse_u32(s, i) {
            Some((x, c)) => Some((Value::U32(x), c)),
            None => None,
        },
        Kind::U64 => match parse_u64(s, i) {
            Some((x, c)) => Some((Value::U64(x), c)),
            None => None,
        },
        Kind::I32 => match parse_i32(s, i) {
            Some((x, c)) => Some((Value::I32(x), c)),
            None => None,
        },
        Kind::I64 => match parse_i64(s, i) {
            Some((x, c)) => Some((Value::I64(x), c)),
            None => None,
        },
        Kind::F32 => match parse_f32(s, i) {
            Some((x, c)) => Some((Value::F32(x), c)),
            None => None,
        },
        Kind::F64 => match parse_f64(s, i) {
            Some((x, c)) => Some((Value::F64(x), c)),
            None => None,
        },
        Kind::Any => None,
        Kind::Unknown => None,
    }
}

} // verus!
