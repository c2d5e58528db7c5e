//! The encoder: an append-only byte buffer that writes tagged values.
use vstd::prelude::*;
use vstd::utf8::encode_utf8;

use crate::kind::Kind;
use crate::wire::{encode_value, varuint, zigzag, Value};

verus! {

/// Owns a growing byte buffer; every operation appends one value to its end.
pub struct Encoder {
    buf: Vec<u8>,
}

impl View for Encoder {
    type V = Seq<u8>;

    /// The bytes written so far.
    closed spec fn view(&self) -> Seq<u8> {
        self.buf@
    }
}

/// The varuint of `x` is its first byte followed by the varuint of the rest.
proof fn lemma_varuint_step(x: nat)
    requires
        x >= 128,
    ensures
        varuint(x) == seq![(x % 128 + 128) as u8] + varuint(x / 128),
{
}

impl Encoder {
    /// An encoder with nothing written.
    pub fn new() -> (r: Encoder)
        ensures
            r@ == Seq::<u8>::empty(),
    {
        Encoder { buf: Vec::new() }
    }

    /// The number of bytes written so far.
    pub fn size(&self) -> (r: usize)
        ensures
            r == self@.len(),
    {
        self.buf.len()
    }

    /// The bytes written so far.
    pub fn as_slice(&self) -> (r: &[u8])
        ensures
            r@ == self@,
    {
        self.buf.as_slice()
    }

    /// Gives up the encoder for the bytes it wrote.
    pub fn into_bytes(self) -> (r: Vec<u8>)
        ensures
            r@ == self@,
    {
        self.buf
    }

    fn put(&mut self, b: u8)
        ensures
            final(self)@ == old(self)@.push(b),
    {
        self.buf.push(b);
    }

    fn put_all(&mut self, b: &[u8])
        ensures
            final(self)@ == old(self)@ + b@,
    {
        let ghost start = self.buf@;
        let mut i: usize = 0;
        while i < b.len()
            invariant
                i <= b@.len(),
                self.buf@ == start + b@.subrange(0, i as int),
            decreases b@.len() - i,
        {
            self.buf.push(b[i]);
            i = i + 1;
            assert(self.buf@ =~= start + b@.subrange(0, i as int));
        }
        assert(b@.subrange(0, i as int) =~= b@);
    }

    fn put_varuint(&mut self, v: u64)
        ensures
            final(self)@ == old(self)@ + varuint(v as nat),
    {
        let ghost start = self.buf@;
        let mut x: u64 = v;
        while x >= 128
            invariant
                self.buf@ + varuint(x as nat) == start + varuint(v as nat),
            decreases x,
        {
            let b: u8 = (x % 128 + 128) as u8;
            proof {
                lemma_varuint_step(x as nat);
                assert(self.buf@.push(b) + varuint((x / 128) as nat) =~= self.buf@ + varuint(
                    x as nat,
                ));
            }
            self.buf.push(b);
            x = x / 128;
        }
        self.buf.push(x as u8);
        assert(self.buf@ =~= start + varuint(v as nat));
    }

    /// Appends a tag and then the varuint of `v`.
    fn put_tagged(&mut self, k: Kind, v: u64)
        ensures
            final(self)@ == old(self)@ + (seq![k.code()] + varuint(v as nat)),
    {
        let ghost start = self.buf@;
        self.put(k.code_of());
        self.put_varuint(v);
        assert(self.buf@ =~= start + (seq![k.code()] + varuint(v as nat)));
    }

    /// Appends the zig-zag form of `n` as a tagged varuint.
    fn put_zigzag(&mut self, k: Kind, n: i64)
        ensures
            final(self)@ == old(self)@ + (seq![k.code()] + varuint(zigzag(n as int))),
    {
        let u: u64 = if n >= 0 {
            (n as u64) * 2
        } else {
            ((-(n + 1)) as u64) * 2 + 1
        };
        assert(u as nat == zigzag(n as int));
        self.put_tagged(k, u);
    }

    /// Writes the `0x00` tag of an absent value.
    pub fn encode_none(&mut self)
        ensures
            final(self)@ == old(self)@ + encode_value(Value::Nil),
    {
        self.put(Kind::Nil.code_of());
        assert(self.buf@ =~= old(self)@ + encode_value(Value::Nil));
    }

    /// Writes an array header: the element kind and the number of elements,
    /// which the caller then writes one by one.
    pub fn encode_array(&mut self, size: u32, kind: Kind)
        ensures
            final(self)@ == old(self)@ + encode_value(Value::Array(kind, size)),
    {
        self.put(Kind::Array.code_of());
        self.put(kind.code_of());
        self.put_tagged(Kind::U32, size as u64);
        assert(self.buf@ =~= old(self)@ + encode_value(Value::Array(kind, size)));
    }

    /// Writes a map header: the key and value kinds and the number of
    /// entries, which the caller then writes as key, value, key, value, ...
    pub fn encode_map(&mut self, size: u32, key_kind: Kind, value_kind: Kind)
        ensures
            final(self)@ == old(self)@ + encode_value(Value::Dict(key_kind, value_kind, size)),
    {
        self.put(Kind::Dict.code_of());
        self.put(key_kind.code_of());
        self.put(value_kind.code_of());
        self.put_tagged(Kind::U32, size as u64);
        assert(self.buf@ =~= old(self)@ + encode_value(Value::Dict(key_kind, value_kind, size)));
    }

    /// Writes a byte blob: its length as a tagged U32, then the bytes.
    pub fn encode_bytes(&mut self, b: &[u8])
        requires
            b@.len() <= u32::MAX,
        ensures
            final(self)@ == old(self)@ + encode_value(Value::Bytes(b@)),
    {
        self.put(Kind::Bytes.code_of());
        self.put_tagged(Kind::U32, b.len() as u64);
        self.put_all(b);
        assert(self.buf@ =~= old(self)@ + encode_value(Value::Bytes(b@)));
    }

    /// Writes a string: its UTF-8 length as a tagged U32, then its UTF-8 bytes.
    pub fn encode_string(&mut self, s: &str)
        requires
            encode_utf8(s@).len() <= u32::MAX,
        ensures
            final(self)@ == old(self)@ + encode_value(Value::Text(s@)),
    {
        let b = s.as_bytes();
        self.put(Kind::String.code_of());
        self.put_tagged(Kind::U32, b.len() as u64);
        self.put_all(b);
        assert(self.buf@ =~= old(self)@ + encode_value(Value::Text(s@)));
    }

    /// Writes an error: its tag, then its message as a whole string.
    pub fn encode_error(&mut self, message: &str)
        requires
            encode_utf8(message@).len() <= u32::MAX,
        ensures
            final(self)@ == old(self)@ + encode_value(Value::Error(message@)),
    {
        self.put(Kind::Error.code_of());
        self.encode_string(message);
        assert(self.buf@ =~= old(self)@ + encode_value(Value::Error(message@)));
    }

    /// Writes a boolean as `0x01` or `0x00`.
    pub fn encode_bool(&mut self, value: bool)
        ensures
            final(self)@ == old(self)@ + encode_value(Value::Bool(value)),
    {
        self.put(Kind::Bool.code_of());
        self.put(if value { 1u8 } else { 0u8 });
        assert(self.buf@ =~= old(self)@ + encode_value(Value::Bool(value)));
    }

    /// Writes a byte as it is.
    pub fn encode_u8(&mut self, value: u8)
        ensures
            final(self)@ == old(self)@ + encode_value(Value::U8(value)),
    {
        self.put(Kind::U8.code_of());
        self.put(value);
        assert(self.buf@ =~= old(self)@ + encode_value(Value::U8(value)));
    }

    pub fn encode_u16(&mut self, value: u16)
        ensures
            final(self)@ == old(self)@ + encode_value(Value::U16(value)),
    {
        self.put_tagged(Kind::U16, value as u64);
    }

    pub fn encode_u32(&mut self, value: u32)
        ensures
            final(self)@ == old(self)@ + encode_value(Value::U32(value)),
    {
        self.put_tagged(Kind::U32, value as u64);
    }

    pub fn encode_u64(&mut self, value: u64)
        ensures
            final(self)@ == old(self)@ + encode_value(Value::U64(value)),
    {
        self.put_tagged(Kind::U64, value);
    }

    pub fn encode_i32(&mut self, value: i32)
        ensures
            final(self)@ == old(self)@ + encode_value(Value::I32(value)),
    {
        self.put_zigzag(Kind::I32, value as i64);
    }

    pub fn encode_i64(&mut self, value: i64)
        ensures
            final(self)@ == old(self)@ + encode_value(Value::I64(value)),
    {
        self.put_zigzag(Kind::I64, value);
    }

    /// Writes the IEEE-754 binary32 pattern `bits`, most significant byte first.
    pub fn encode_f32(&mut self, bits: u32)
        ensures
            final(self)@ == old(self)@ + encode_value(Value::F32(bits)),
    {
        self.put(Kind::F32.code_of());
        self.put((bits >> 24u32) as u8);
        self.put((bits >> 16u32) as u8);
        self.put((bits >> 8u32) as u8);
        self.put(bits as u8);
        assert(self.buf@ =~= old(self)@ + encode_value(Value::F32(bits)));
    }

    /// Writes the IEEE-754 binary64 pattern `bits`, most significant byte first.
    pub fn encode_f64(&mut self, bits: u64)
        ensures
            final(self)@ == old(self)@ + encode_value(Value::F64(bits)),
    {
        self.put(Kind::F64.code_of());
        self.put((bits >> 56u64) as u8);
        self.put((bits >> 48u64) as u8);
        self.put((bits >> 40u64) as u8);
        self.put((bits >> 32u64) as u8);
        self.put((bits >> 24u64) as u8);
        self.put((bits >> 16u64) as u8);
        self.put((bits >> 8u64) as u8);
        self.put(bits as u8);
        assert(self.buf@ =~= old(self)@ + encode_value(Value::F64(bits)));
    }
}

} // verus!
