//! The decoder: a read position over an owned copy of the input, advanced by
//! typed reads that check each value's tag and payload.
use vstd::prelude::*;
use vstd::utf8::{decode_utf8, valid_utf8};

use crate::kind::Kind;
use crate::lemmas::{lemma_pow128_mono, lemma_pow128_values, pow128};
use crate::wire::{
    parse_array, parse_array_of, parse_bool, parse_bytes, parse_dict, parse_dict_of, parse_error,
    parse_f32, parse_f64, parse_i32, parse_i64, parse_span, parse_tagged, parse_text, parse_u16,
    parse_u32, parse_u64, parse_u8, parse_varuint, tag_at, unzigzag,
};

verus! {

/// Why a read failed: one variant per kind. It covers a tag of another kind,
/// a payload cut short or malformed, and (for strings) bytes that are not UTF-8.
#[derive(Clone, Copy, Debug, PartialEq, Eq, Structural)]
pub enum DecodingError {
    InvalidArray,
    InvalidMap,
    InvalidBytes,
    InvalidString,
    InvalidError,
    InvalidBool,
    InvalidU8,
    InvalidU16,
    InvalidU32,
    InvalidU64,
    InvalidI32,
    InvalidI64,
    InvalidF32,
    InvalidF64,
}

/// Where a reader at `i` stands after a read whose outcome is `p`: past the
/// whole value, or past the inspected tag alone when the read fails.
pub open spec fn advance<T>(p: Option<(T, nat)>, s: Seq<u8>, i: nat) -> nat {
    match p {
        Some((_, n)) => i + n,
        None => if i < s.len() {
            i + 1
        } else {
            i
        },
    }
}

/// What a read whose outcome is `p` returns, failing with `e`.
pub open spec fn outcome<T>(p: Option<(T, nat)>, e: DecodingError) -> Result<T, DecodingError> {
    match p {
        Some((x, _)) => Ok(x),
        None => Err(e),
    }
}

/// An executable read `r` at `i` agrees with its description `p`.
spec fn agrees<T>(r: Option<(T, usize)>, p: Option<(T, nat)>, s: Seq<u8>, i: nat) -> bool {
    match (r, p) {
        (Some((x, m)), Some((y, n))) => x == y && m as nat == n && i + n <= s.len(),
        (None, None) => true,
        _ => false,
    }
}

/// Relies on `String::from_utf8`: it succeeds exactly on well-formed UTF-8,
/// and then holds the characters that the bytes encode.
#[verifier::external_body]
pub(crate) fn string_from_utf8(bytes: Vec<u8>) -> (r: Option<String>)
    ensures
        r.is_some() == valid_utf8(bytes@),
        r matches Some(t) ==> t@ == decode_utf8(bytes@),
{
    String::from_utf8(bytes).ok()
}

/// Copies `s[a..b]`.
pub(crate) fn copy_range(s: &[u8], a: usize, b: usize) -> (r: Vec<u8>)
    requires
        a <= b <= s@.len(),
    ensures
        r@ == s@.subrange(a as int, b as int),
{
    let mut r: Vec<u8> = Vec::new();
    let mut j: usize = a;
    while j < b
        invariant
            a <= j <= b <= s@.len(),
            r@ == s@.subrange(a as int, j as int),
        decreases b - j,
    {
        r.push(s[j]);
        j = j + 1;
        assert(r@ =~= s@.subrange(a as int, j as int));
    }
    r
}

fn read_varuint(s: &Vec<u8>, i: usize, limit: usize) -> (r: Option<(u128, usize)>)
    requires
        limit <= 10,
    ensures
        match (r, parse_varuint(s@, i as nat, limit as nat)) {
            (Some((w, m)), Some((v, n))) => w == v && m == n && v < pow128(n) && 1 <= n <= limit
                && i + n <= s@.len(),
            (None, None) => true,
            _ => false,
        },
    decreases limit,
{
    if limit == 0 || i >= s.len() {
        return None;
    }
    let b = s[i];
    proof {
        lemma_pow128_values();
    }
    if b < 128 {
        return Some((b as u128, 1));
    }
    match read_varuint(s, i + 1, limit - 1) {
        Some((v, n)) => {
            proof {
                lemma_pow128_mono(n as nat, 9);
                let p = pow128(n as nat);
                assert((b - 128) + 128 * v < 128 * p) by (nonlinear_arith)
                    requires
                        v < p,
                        b < 256,
                        b >= 128,
                ;
                assert(128 * v <= 128 * 0x8000_0000_0000_0000u128) by (nonlinear_arith)
                    requires
                        v < 0x8000_0000_0000_0000u128,
                ;
            }
            Some(((b - 128) as u128 + 128 * v, n + 1))
        },
        None => None,
    }
}

fn read_tagged(s: &Vec<u8>, i: usize, k: Kind, limit: usize, max: u64) -> (r: Option<
    (u64, usize),
>)
    requires
        1 <= limit <= 10,
    ensures
        match (r, parse_tagged(s@, i as nat, k, limit as nat, max as nat)) {
            (Some((w, m)), Some((v, n))) => w == v && m == n && i + n <= s@.len(),
            (None, None) => true,
            _ => false,
        },
{
    if i < s.len() && s[i] == k.code_of() {
        match read_varuint(s, i + 1, limit) {
            Some((v, n)) => if v <= max as u128 {
                Some((v as u64, n + 1))
            } else {
                None
            },
            None => None,
        }
    } else {
        None
    }
}

fn read_u16(s: &Vec<u8>, i: usize) -> (r: Option<(u16, usize)>)
    ensures
        agrees(r, parse_u16(s@, i as nat), s@, i as nat),
{
    match read_tagged(s, i, Kind::U16, 3, 0xffff) {
        Some((v, n)) => Some((v as u16, n)),
        None => None,
    }
}

fn read_u32(s: &Vec<u8>, i: usize) -> (r: Option<(u32, usize)>)
    ensures
        agrees(r, parse_u32(s@, i as nat), s@, i as nat),
{
    match read_tagged(s, i, Kind::U32, 5, 0xffff_ffff) {
        Some((v, n)) => Some((v as u32, n)),
        None => None,
    }
}

fn read_u64(s: &Vec<u8>, i: usize) -> (r: Option<(u64, usize)>)
    ensures
        agrees(r, parse_u64(s@, i as nat), s@, i as nat),
{
    read_tagged(s, i, Kind::U64, 10, 0xffff_ffff_ffff_ffff)
}

fn read_i32(s: &Vec<u8>, i: usize) -> (r: Option<(i32, usize)>)
    ensures
        agrees(r, parse_i32(s@, i as nat), s@, i as nat),
{
    match read_tagged(s, i, Kind::I32, 5, 0xffff_ffff) {
        Some((u, n)) => {
            let x: i32 = if u % 2 == 0 {
                (u / 2) as i32
            } else {
                -(((u - 1) / 2) as i32) - 1
            };
            assert(x == unzigzag(u as nat));
            Some((x, n))
        },
        None => None,
    }
}

fn read_i64(s: &Vec<u8>, i: usize) -> (r: Option<(i64, usize)>)
    ensures
        agrees(r, parse_i64(s@, i as nat), s@, i as nat),
{
    match read_tagged(s, i, Kind::I64, 10, 0xffff_ffff_ffff_ffff) {
        Some((u, n)) => {
            let x: i64 = if u % 2 == 0 {
                (u / 2) as i64
            } else {
                -(((u - 1) / 2) as i64) - 1
            };
            assert(x == unzigzag(u as nat));
            Some((x, n))
        },
        None => None,
    }
}

fn read_u8(s: &Vec<u8>, i: usize) -> (r: Option<(u8, usize)>)
    ensures
        agrees(r, parse_u8(s@, i as nat), s@, i as nat),
{
    if i < s.len() && s[i] == Kind::U8.code_of() && i + 1 < s.len() {
        Some((s[i + 1], 2))
    } else {
        None
    }
}

fn read_bool(s: &Vec<u8>, i: usize) -> (r: Option<(bool, usize)>)
    ensures
        agrees(r, parse_bool(s@, i as nat), s@, i as nat),
{
    if i < s.len() && s[i] == Kind::Bool.code_of() && i + 1 < s.len() {
        Some((s[i + 1] != 0, 2))
    } else {
        None
    }
}

fn read_f32(s: &Vec<u8>, i: usize) -> (r: Option<(u32, usize)>)
    ensures
        agrees(r, parse_f32(s@, i as nat), s@, i as nat),
{
    if i < s.len() && s[i] == Kind::F32.code_of() && 4 < s.len() - i {
        let bits: u32 = (s[i + 1] as u32) << 24u32 | (s[i + 2] as u32) << 16u32 | (s[i + 3]
            as u32) << 8u32 | (s[i + 4] as u32);
        Some((bits, 5))
    } else {
        None
    }
}

fn read_f64(s: &Vec<u8>, i: usize) -> (r: Option<(u64, usize)>)
    ensures
        agrees(r, parse_f64(s@, i as nat), s@, i as nat),
{
    if i < s.len() && s[i] == Kind::F64.code_of() && 8 < s.len() - i {
        let bits: u64 = (s[i + 1] as u64) << 56u64 | (s[i + 2] as u64) << 48u64 | (s[i + 3]
            as u64) << 40u64 | (s[i + 4] as u64) << 32u64 | (s[i + 5] as u64) << 24u64 | (s[i
            + 6] as u64) << 16u64 | (s[i + 7] as u64) << 8u64 | (s[i + 8] as u64);
        Some((bits, 9))
    } else {
        None
    }
}

fn read_array(s: &Vec<u8>, i: usize) -> (r: Option<((Kind, u32), usize)>)
    ensures
        agrees(r, parse_array(s@, i as nat), s@, i as nat),
{
    if i < s.len() && s[i] == Kind::Array.code_of() && 1 < s.len() - i && s[i + 1] < 0x10 {
        match read_u32(s, i + 2) {
            Some((n, c)) => Some(((Kind::kind_of(s[i + 1]), n), c + 2)),
            None => None,
        }
    } else {
        None
    }
}

fn read_dict(s: &Vec<u8>, i: usize) -> (r: Option<((Kind, Kind, u32), usize)>)
    ensures
        agrees(r, parse_dict(s@, i as nat), s@, i as nat),
{
    if i < s.len() && s[i] == Kind::Dict.code_of() && 2 < s.len() - i && s[i + 1] < 0x10 && s[i
        + 2] < 0x10 {
        match read_u32(s, i + 3) {
            Some((n, c)) => Some(((Kind::kind_of(s[i + 1]), Kind::kind_of(s[i + 2]), n), c + 3)),
            None => None,
        }
    } else {
        None
    }
}

/// Finds the payload of a length-prefixed span: where it starts and how many
/// bytes the whole span takes.
fn read_span(s: &Vec<u8>, i: usize, k: Kind) -> (r: Option<(usize, usize)>)
    ensures
        match (r, parse_span(s@, i as nat, k)) {
            (Some((a, m)), Some((b, n))) => m == n && i <= a <= i + n <= s@.len() && b == s@.subrange(
                a as int,
                i + n,
            ),
            (None, None) => true,
            _ => false,
        },
        r matches Some((a, m)) ==> i <= a <= i + m <= s@.len() <= usize::MAX,
{
    if i < s.len() && s[i] == k.code_of() {
        match read_u32(s, i + 1) {
            Some((n, c)) => {
                let a = i + 1 + c;
                if (n as usize) <= s.len() - a {
                    Some((a, 1 + c + n as usize))
                } else {
                    None
                }
            },
            None => None,
        }
    } else {
        None
    }
}

/// Reads a whole string at `i`.
fn read_text(s: &Vec<u8>, i: usize) -> (r: Option<(String, usize)>)
    ensures
        match (r, parse_text(s@, i as nat)) {
            (Some((x, m)), Some((y, n))) => x@ == y && m == n && i + n <= s@.len(),
            (None, None) => true,
            _ => false,
        },
{
    match read_span(s, i, Kind::String) {
        Some((a, n)) => {
            let bytes = copy_range(s.as_slice(), a, i + n);
            match string_from_utf8(bytes) {
                Some(t) => Some((t, n)),
                None => None,
            }
        },
        None => None,
    }
}

/// Reads input bytes from the start on. It owns its own copy of them.
pub struct Decoder {
    buf: Vec<u8>,
    pos: usize,
}

impl Decoder {
    #[verifier::type_invariant]
    spec fn inv(self) -> bool {
        self.pos <= self.buf.len()
    }

    /// The input.
    pub closed spec fn data(&self) -> Seq<u8> {
        self.buf@
    }

    /// The read position: how many bytes of the input have been consumed.
    pub closed spec fn pos(&self) -> nat {
        self.pos as nat
    }

    /// `next` is this decoder after a read whose outcome at the current
    /// position is `p`.
    pub open spec fn stepped<T>(self, next: Decoder, p: Option<(T, nat)>) -> bool {
        &&& next.data() == self.data()
        &&& next.pos() == advance(p, self.data(), self.pos())
    }

    /// A decoder at the start of `bytes`.
    pub fn new(bytes: Vec<u8>) -> (r: Decoder)
        ensures
            r.data() == bytes@,
            r.pos() == 0,
    {
        Decoder { buf: bytes, pos: 0 }
    }

    /// The read position.
    pub fn position(&self) -> (r: usize)
        ensures
            r == self.pos(),
    {
        self.pos
    }

    /// How many bytes are left to read.
    pub fn remaining(&self) -> (r: usize)
        ensures
            r == self.data().len() - self.pos(),
    {
        proof {
            use_type_invariant(self);
        }
        self.buf.len() - self.pos
    }

    /// Moves past the inspected tag after a failed read.
    fn skip_tag(&mut self)
        ensures
            final(self).data() == old(self).data(),
            final(self).pos() == advance(None::<((), nat)>, old(self).data(), old(self).pos()),
    {
        proof {
            use_type_invariant(&*self);
        }
        if self.pos < self.buf.len() {
            self.pos = self.pos + 1;
        }
    }

    /// Moves past a value of `n` bytes that was read at the current position.
    fn skip(&mut self, n: usize)
        requires
            old(self).pos() + n <= old(self).data().len(),
        ensures
            final(self).data() == old(self).data(),
            final(self).pos() == old(self).pos() + n,
    {
        let len = self.buf.len();
        self.pos = self.pos + n;
    }

    /// Probes for an absent value: consumes a `0x00` tag and returns `true`,
    /// or returns `false` and consumes nothing. It never fails.
    pub fn decode_none(&mut self) -> (r: bool)
        ensures
            r == tag_at(old(self).data(), old(self).pos(), Kind::Nil),
            final(self).data() == old(self).data(),
            final(self).pos() == old(self).pos() + if r {
                1nat
            } else {
                0nat
            },
    {
        proof {
            use_type_invariant(&*self);
        }
        if self.pos < self.buf.len() && self.buf[self.pos] == Kind::Nil.code_of() {
            self.skip(1);
            true
        } else {
            false
        }
    }

    /// Reads an array header whose element kind is `kind`, and returns the
    /// number of elements, which the caller then reads one by one.
    pub fn decode_array(&mut self, kind: Kind) -> (r: Result<u32, DecodingError>)
        ensures
            old(self).stepped(*final(self), parse_array_of(old(self).data(), old(self).pos(), kind)),
            r == outcome(
                parse_array_of(old(self).data(), old(self).pos(), kind),
                DecodingError::InvalidArray,
            ),
    {
        proof {
            use_type_invariant(&*self);
        }
        match read_array(&self.buf, self.pos) {
            Some(((e, n), c)) => if e == kind {
                self.skip(c);
                Ok(n)
            } else {
                self.skip_tag();
                Err(DecodingError::InvalidArray)
            },
            None => {
                self.skip_tag();
                Err(DecodingError::InvalidArray)
            },
        }
    }

    /// Reads a map header whose key and value kinds are `key_kind` and
    /// `value_kind`, and returns the number of entries.
    pub fn decode_map(&mut self, key_kind: Kind, value_kind: Kind) -> (r: Result<
        u32,
        DecodingError,
    >)
        ensures
            old(self).stepped(
                *final(self),
                parse_dict_of(old(self).data(), old(self).pos(), key_kind, value_kind),
            ),
            r == outcome(
                parse_dict_of(old(self).data(), old(self).pos(), key_kind, value_kind),
                DecodingError::InvalidMap,
            ),
    {
        proof {
            use_type_invariant(&*self);
        }
        match read_dict(&self.buf, self.pos) {
            Some(((e, f, n), c)) => if e == key_kind && f == value_kind {
                self.skip(c);
                Ok(n)
            } else {
                self.skip_tag();
                Err(DecodingError::InvalidMap)
            },
            None => {
                self.skip_tag();
                Err(DecodingError::InvalidMap)
            },
        }
    }

    /// Reads a byte blob and returns a copy of its bytes.
    pub fn decode_bytes(&mut self) -> (r: Result<Vec<u8>, DecodingError>)
        ensures
            old(self).stepped(*final(self), parse_bytes(old(self).data(), old(self).pos())),
            match parse_bytes(old(self).data(), old(self).pos()) {
                Some((b, _)) => r matches Ok(x) && x@ == b,
                None => r == Err::<Vec<u8>, DecodingError>(DecodingError::InvalidBytes),
            },
    {
        proof {
            use_type_invariant(&*self);
        }
        match read_span(&self.buf, self.pos, Kind::Bytes) {
            Some((a, n)) => {
                let bytes = copy_range(self.buf.as_slice(), a, self.pos + n);
                self.skip(n);
                Ok(bytes)
            },
            None => {
                self.skip_tag();
                Err(DecodingError::InvalidBytes)
            },
        }
    }

    /// Reads a string; its bytes must be well-formed UTF-8.
    pub fn decode_string(&mut self) -> (r: Result<String, DecodingError>)
        ensures
            old(self).stepped(*final(self), parse_text(old(self).data(), old(self).pos())),
            match parse_text(old(self).data(), old(self).pos()) {
                Some((t, _)) => r matches Ok(x) && x@ == t,
                None => r == Err::<String, DecodingError>(DecodingError::InvalidString),
            },
    {
        proof {
            use_type_invariant(&*self);
        }
        match read_text(&self.buf, self.pos) {
            Some((t, n)) => {
                self.skip(n);
                Ok(t)
            },
            None => {
                self.skip_tag();
                Err(DecodingError::InvalidString)
            },
        }
    }

    /// Reads an error and returns its message.
    pub fn decode_error(&mut self) -> (r: Result<String, DecodingError>)
        ensures
            old(self).stepped(*final(self), parse_error(old(self).data(), old(self).pos())),
            match parse_error(old(self).data(), old(self).pos()) {
                Some((t, _)) => r matches Ok(x) && x@ == t,
                None => r == Err::<String, DecodingError>(DecodingError::InvalidError),
            },
    {
        proof {
            use_type_invariant(&*self);
        }
        if self.pos < self.buf.len() && self.buf[self.pos] == Kind::Error.code_of() {
            match read_text(&self.buf, self.pos + 1) {
                Some((t, n)) => {
                    self.skip(n + 1);
                    return Ok(t);
                },
                None => {},
            }
        }
        self.skip_tag();
        Err(DecodingError::InvalidError)
    }

    /// Reads a boolean: any second byte other than zero reads as `true`.
    pub fn decode_bool(&mut self) -> (r: Result<bool, DecodingError>)
        ensures
            old(self).stepped(*final(self), parse_bool(old(self).data(), old(self).pos())),
            r == outcome(parse_bool(old(self).data(), old(self).pos()), DecodingError::InvalidBool),
    {
        proof {
            use_type_invariant(&*self);
        }
        match read_bool(&self.buf, self.pos) {
            Some((v, n)) => {
                self.skip(n);
                Ok(v)
            },
            None => {
                self.skip_tag();
                Err(DecodingError::InvalidBool)
            },
        }
    }

    /// Reads a byte.
    pub fn decode_u8(&mut self) -> (r: Result<u8, DecodingError>)
        ensures
            old(self).stepped(*final(self), parse_u8(old(self).data(), old(self).pos())),
            r == outcome(parse_u8(old(self).data(), old(self).pos()), DecodingError::InvalidU8),
    {
        proof {
            use_type_invariant(&*self);
        }
        match read_u8(&self.buf, self.pos) {
            Some((v, n)) => {
                self.skip(n);
                Ok(v)
            },
            None => {
                self.skip_tag();
                Err(DecodingError::InvalidU8)
            },
        }
    }

    /// Reads a U16 varuint of at most three bytes.
    pub fn decode_u16(&mut self) -> (r: Result<u16, DecodingError>)
        ensures
            old(self).stepped(*final(self), parse_u16(old(self).data(), old(self).pos())),
            r == outcome(parse_u16(old(self).data(), old(self).pos()), DecodingError::InvalidU16),
    {
        proof {
            use_type_invariant(&*self);
        }
        match read_u16(&self.buf, self.pos) {
            Some((v, n)) => {
                self.skip(n);
                Ok(v)
            },
            None => {
                self.skip_tag();
                Err(DecodingError::InvalidU16)
            },
        }
    }

    /// Reads a U32 varuint of at most five bytes.
    pub fn decode_u32(&mut self) -> (r: Result<u32, DecodingError>)
        ensures
            old(self).stepped(*final(self), parse_u32(old(self).data(), old(self).pos())),
            r == outcome(parse_u32(old(self).data(), old(self).pos()), DecodingError::InvalidU32),
    {
        proof {
            use_type_invariant(&*self);
        }
        match read_u32(&self.buf, self.pos) {
            Some((v, n)) => {
                self.skip(n);
                Ok(v)
            },
            None => {
                self.skip_tag();
                Err(DecodingError::InvalidU32)
            },
        }
    }

    /// Reads a U64 varuint of at most ten bytes.
    pub fn decode_u64(&mut self) -> (r: Result<u64, DecodingError>)
        ensures
            old(self).stepped(*final(self), parse_u64(old(self).data(), old(self).pos())),
            r == outcome(parse_u64(old(self).data(), old(self).pos()), DecodingError::InvalidU64),
    {
        proof {
            use_type_invariant(&*self);
        }
        match read_u64(&self.buf, self.pos) {
            Some((v, n)) => {
                self.skip(n);
                Ok(v)
            },
            None => {
                self.skip_tag();
                Err(DecodingError::InvalidU64)
            },
        }
    }

    /// Reads a zig-zag I32 of at most five bytes.
    pub fn decode_i32(&mut self) -> (r: Result<i32, DecodingError>)
        ensures
            old(self).stepped(*final(self), parse_i32(old(self).data(), old(self).pos())),
            r == outcome(parse_i32(old(self).data(), old(self).pos()), DecodingError::InvalidI32),
    {
        proof {
            use_type_invariant(&*self);
        }
        match read_i32(&self.buf, self.pos) {
            Some((v, n)) => {
                self.skip(n);
                Ok(v)
            },
            None => {
                self.skip_tag();
                Err(DecodingError::InvalidI32)
            },
        }
    }

    /// Reads a zig-zag I64 of at most ten bytes.
    pub fn decode_i64(&mut self) -> (r: Result<i64, DecodingError>)
        ensures
            old(self).stepped(*final(self), parse_i64(old(self).data(), old(self).pos())),
            r == outcome(parse_i64(old(self).data(), old(self).pos()), DecodingError::InvalidI64),
    {
        proof {
            use_type_invariant(&*self);
        }
        match read_i64(&self.buf, self.pos) {
            Some((v, n)) => {
                self.skip(n);
                Ok(v)
            },
            None => {
                self.skip_tag();
                Err(DecodingError::InvalidI64)
            },
        }
    }

    /// Reads the bit pattern of an IEEE-754 binary32, most significant byte first.
    pub fn decode_f32(&mut self) -> (r: Result<u32, DecodingError>)
        ensures
            old(self).stepped(*final(self), parse_f32(old(self).data(), old(self).pos())),
            r == outcome(parse_f32(old(self).data(), old(self).pos()), DecodingError::InvalidF32),
    {
        proof {
            use_type_invariant(&*self);
        }
        match read_f32(&self.buf, self.pos) {
            Some((v, n)) => {
                self.skip(n);
                Ok(v)
            },
            None => {
                self.skip_tag();
                Err(DecodingError::InvalidF32)
            },
        }
    }

    /// Reads the bit pattern of an IEEE-754 binary64, most significant byte first.
    pub fn decode_f64(&mut self) -> (r: Result<u64, DecodingError>)
        ensures
            old(self).stepped(*final(self), parse_f64(old(self).data(), old(self).pos())),
            r == outcome(parse_f64(old(self).data(), old(self).pos()), DecodingError::InvalidF64),
    {
        proof {
            use_type_invariant(&*self);
        }
        match read_f64(&self.buf, self.pos) {
            Some((v, n)) => {
                self.skip(n);
                Ok(v)
            },
            None => {
                self.skip_tag();
                Err(DecodingError::InvalidF64)
            },
        }
    }
}

} // verus!
