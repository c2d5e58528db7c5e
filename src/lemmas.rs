//! Facts about the wire format's building blocks that the encoder, the
//! decoder and the laws rest on.
use vstd::prelude::*;

use vstd::utf8::{encode_utf8, encode_utf8_decode_utf8, encode_utf8_valid_utf8};

use crate::kind::{lemma_code_round_trip as kind_code_round_trip, Kind};
use crate::wire::{
    be32, be64, encode_value, from_be32, from_be64, parse_tagged, parse_text, parse_u32,
    parse_value, parse_varuint, stands_at, tagged_u32, unzigzag, varuint, zigzag, Value,
};

verus! {

/// `128` to the power `k`: the first value that needs more than `k` groups.
pub open spec fn pow128(k: nat) -> nat
    decreases k,
{
    if k == 0 {
        1
    } else {
        128 * pow128((k - 1) as nat)
    }
}

pub proof fn lemma_pow128_values()
    ensures
        pow128(1) == 128,
        pow128(3) == 2097152,
        pow128(5) == 34359738368,
        pow128(9) == 0x8000_0000_0000_0000,
        pow128(10) == 0x40_0000_0000_0000_0000,
{
    reveal_with_fuel(pow128, 11);
}

pub proof fn lemma_pow128_mono(a: nat, b: nat)
    requires
        a <= b,
    ensures
        pow128(a) <= pow128(b),
    decreases b,
{
    if a < b {
        lemma_pow128_mono(a, (b - 1) as nat);
    }
}

/// A value below `128^k` takes at most `k` bytes.
pub proof fn lemma_varuint_len(v: nat, k: nat)
    requires
        k >= 1,
        v < pow128(k),
    ensures
        1 <= varuint(v).len() <= k,
    decreases v,
{
    if v >= 128 {
        lemma_pow128_values();
        if k == 1 {
            assert(false);
        }
        let p = pow128((k - 1) as nat);
        assert(v / 128 < p) by (nonlinear_arith)
            requires
                v < 128 * p,
        ;
        lemma_varuint_len(v / 128, (k - 1) as nat);
    }
}

/// Reading back the varuint of `v`, wherever it stands in `s`, gives `v`.
pub proof fn lemma_parse_varuint(v: nat, s: Seq<u8>, i: nat, limit: nat)
    requires
        varuint(v).len() <= limit,
        i + varuint(v).len() <= s.len(),
        s.subrange(i as int, i + varuint(v).len() as int) == varuint(v),
    ensures
        parse_varuint(s, i, limit) == Some((v, varuint(v).len())),
    decreases v,
{
    let e = varuint(v);
    let a = i as int;
    assert(s.subrange(a, a + e.len())[0] == s[a]);
    if v >= 128 {
        let r = varuint(v / 128);
        assert(s.subrange(a + 1, a + 1 + r.len()) =~= r) by {
            assert forall|j: int| 0 <= j < r.len() implies s.subrange(a + 1, a + 1 + r.len())[j]
                == r[j] by {
                assert(s.subrange(a, a + e.len())[j + 1] == e[j + 1]);
            }
        }
        lemma_parse_varuint(v / 128, s, i + 1, (limit - 1) as nat);
        assert((v % 128 + 128) as u8 - 128 == v % 128);
        assert(v % 128 + 128 * (v / 128) == v) by (nonlinear_arith);
    }
}

/// The bytes of a big-endian 32-bit pattern read back as the pattern.
pub proof fn lemma_be32(x: u32, s: Seq<u8>, j: int)
    requires
        0 <= j,
        j + 4 <= s.len(),
        s.subrange(j, j + 4) == be32(x),
    ensures
        from_be32(s, j) == x,
{
    assert(s[j] == be32(x)[0] && s[j + 1] == be32(x)[1] && s[j + 2] == be32(x)[2] && s[j + 3]
        == be32(x)[3]) by {
        assert(s.subrange(j, j + 4)[0] == s[j]);
        assert(s.subrange(j, j + 4)[1] == s[j + 1]);
        assert(s.subrange(j, j + 4)[2] == s[j + 2]);
        assert(s.subrange(j, j + 4)[3] == s[j + 3]);
    }
    assert(((((x >> 24u32) as u8) as u32) << 24u32 | (((x >> 16u32) as u8) as u32) << 16u32 | ((
    (x >> 8u32) as u8) as u32) << 8u32 | ((x as u8) as u32)) == x) by (bit_vector);
}

/// The bytes of a big-endian 64-bit pattern read back as the pattern.
pub proof fn lemma_be64(x: u64, s: Seq<u8>, j: int)
    requires
        0 <= j,
        j + 8 <= s.len(),
        s.subrange(j, j + 8) == be64(x),
    ensures
        from_be64(s, j) == x,
{
    let w = s.subrange(j, j + 8);
    assert(forall|k: int| 0 <= k < 8 ==> #[trigger] w[k] == s[j + k]);
    assert(((((x >> 56u64) as u8) as u64) << 56u64 | (((x >> 48u64) as u8) as u64) << 48u64 | ((
    (x >> 40u64) as u8) as u64) << 40u64 | (((x >> 32u64) as u8) as u64) << 32u64 | (((x
        >> 24u64) as u8) as u64) << 24u64 | (((x >> 16u64) as u8) as u64) << 16u64 | (((x
        >> 8u64) as u8) as u64) << 8u64 | ((x as u8) as u64)) == x) by (bit_vector);
}

} // verus!

verus! {

/// Where `a + b` stands at `i` in `s`, `a` stands at `i` and `b` right after it.
pub proof fn lemma_split(s: Seq<u8>, i: int, a: Seq<u8>, b: Seq<u8>)
    requires
        0 <= i,
        i + a.len() + b.len() <= s.len(),
        s.subrange(i, i + a.len() + b.len()) == a + b,
    ensures
        s.subrange(i, i + a.len()) == a,
        s.subrange(i + a.len(), i + a.len() + b.len()) == b,
{
    let w = s.subrange(i, i + a.len() + b.len());
    assert(s.subrange(i, i + a.len()) =~= a) by {
        assert forall|j: int| 0 <= j < a.len() implies s.subrange(i, i + a.len())[j] == a[j] by {
            assert(w[j] == (a + b)[j]);
        }
    }
    assert(s.subrange(i + a.len(), i + a.len() + b.len()) =~= b) by {
        assert forall|j: int| 0 <= j < b.len() implies s.subrange(
            i + a.len(),
            i + a.len() + b.len(),
        )[j] == b[j] by {
            assert(w[a.len() + j] == (a + b)[a.len() + j]);
        }
    }
}

/// A tag followed by the varuint of `x` reads back as `x` when `x` fits the bounds.
pub proof fn lemma_parse_tagged(x: nat, k: Kind, limit: nat, max: nat, s: Seq<u8>, i: nat)
    requires
        limit >= 1,
        x <= max,
        max < pow128(limit),
        stands_at(s, i, seq![k.code()] + varuint(x)),
    ensures
        parse_tagged(s, i, k, limit, max) == Some((x, 1 + varuint(x).len())),
{
    lemma_varuint_len(x, limit);
    lemma_split(s, i as int, seq![k.code()], varuint(x));
    assert(s.subrange(i as int, i + 1int)[0] == s[i as int]);
    lemma_parse_varuint(x, s, i + 1, limit);
}

/// A fully tagged U32 reads back as its value.
pub proof fn lemma_parse_u32(n: u32, s: Seq<u8>, i: nat)
    requires
        stands_at(s, i, tagged_u32(n as nat)),
    ensures
        parse_u32(s, i) == Some((n, tagged_u32(n as nat).len())),
{
    lemma_pow128_values();
    lemma_parse_tagged(n as nat, Kind::U32, 5, u32::MAX as nat, s, i);
}

pub proof fn lemma_zigzag(n: int)
    ensures
        unzigzag(zigzag(n)) == n,
        -0x8000_0000 <= n < 0x8000_0000 ==> zigzag(n) <= u32::MAX,
        -0x8000_0000_0000_0000 <= n < 0x8000_0000_0000_0000 ==> zigzag(n) <= u64::MAX,
{
}

/// A string frame (tag, tagged length, UTF-8 bytes) reads back as its characters.
pub proof fn lemma_parse_text(t: Seq<char>, s: Seq<u8>, i: nat)
    requires
        encode_utf8(t).len() <= u32::MAX,
        stands_at(s, i, encode_value(Value::Text(t))),
    ensures
        parse_text(s, i) == Some((t, encode_value(Value::Text(t)).len())),
{
    broadcast use encode_utf8_valid_utf8, encode_utf8_decode_utf8;

    let b = encode_utf8(t);
    let head = seq![Kind::String.code()];
    let len = tagged_u32(b.len());
    assert(encode_value(Value::Text(t)) =~= head + len + b);
    lemma_split(s, i as int, head + len, b);
    lemma_split(s, i as int, head, len);
    assert(s.subrange(i as int, i + 1int)[0] == s[i as int]);
    lemma_parse_u32(b.len() as u32, s, i + 1);
}

/// Wherever the encoding of a valid value stands, a reader expecting its kind
/// there recovers the value and consumes exactly its encoding.
pub proof fn lemma_parse_at(v: Value, s: Seq<u8>, i: nat)
    requires
        v.valid(),
        stands_at(s, i, encode_value(v)),
    ensures
        parse_value(v.kind(), s, i) == Some((v, encode_value(v).len())),
{
    let e = encode_value(v);
    let a = i as int;
    assert(s.subrange(a, a + e.len())[0] == s[a]);
    lemma_pow128_values();
    match v {
        Value::Nil => {},
        Value::Array(k, n) => {
            let t = tagged_u32(n as nat);
            assert(e =~= seq![Kind::Array.code(), k.code()] + t);
            lemma_split(s, a, seq![Kind::Array.code(), k.code()], t);
            assert(s.subrange(a, a + e.len())[1] == s[a + 1]);
            lemma_parse_u32(n, s, i + 2);
            kind_code_round_trip(k);
        },
        Value::Dict(k, w, n) => {
            let t = tagged_u32(n as nat);
            assert(e =~= seq![Kind::Dict.code(), k.code(), w.code()] + t);
            lemma_split(s, a, seq![Kind::Dict.code(), k.code(), w.code()], t);
            assert(s.subrange(a, a + e.len())[1] == s[a + 1]);
            assert(s.subrange(a, a + e.len())[2] == s[a + 2]);
            lemma_parse_u32(n, s, i + 3);
            kind_code_round_trip(k);
            kind_code_round_trip(w);
        },
        Value::Bytes(b) => {
            let head = seq![Kind::Bytes.code()];
            let len = tagged_u32(b.len());
            assert(e =~= head + len + b);
            lemma_split(s, a, head + len, b);
            lemma_split(s, a, head, len);
            lemma_parse_u32(b.len() as u32, s, i + 1);
        },
        Value::Text(t) => {
            lemma_parse_text(t, s, i);
        },
        Value::Error(t) => {
            let inner = encode_value(Value::Text(t));
            assert(e =~= seq![Kind::Error.code()] + inner);
            lemma_split(s, a, seq![Kind::Error.code()], inner);
            lemma_parse_text(t, s, i + 1);
        },
        Value::Bool(b) => {
            assert(s.subrange(a, a + e.len())[1] == s[a + 1]);
        },
        Value::U8(x) => {
            assert(s.subrange(a, a + e.len())[1] == s[a + 1]);
        },
        Value::U16(x) => {
            lemma_parse_tagged(x as nat, Kind::U16, 3, u16::MAX as nat, s, i);
        },
        Value::U32(x) => {
            lemma_parse_tagged(x as nat, Kind::U32, 5, u32::MAX as nat, s, i);
        },
        Value::U64(x) => {
            lemma_parse_tagged(x as nat, Kind::U64, 10, u64::MAX as nat, s, i);
        },
        Value::I32(x) => {
            lemma_zigzag(x as int);
            lemma_parse_tagged(zigzag(x as int), Kind::I32, 5, u32::MAX as nat, s, i);
        },
        Value::I64(x) => {
            lemma_zigzag(x as int);
            lemma_parse_tagged(zigzag(x as int), Kind::I64, 10, u64::MAX as nat, s, i);
        },
        Value::F32(x) => {
            lemma_split(s, a, seq![Kind::F32.code()], be32(x));
            lemma_be32(x, s, a + 1);
        },
        Value::F64(x) => {
            lemma_split(s, a, seq![Kind::F64.code()], be64(x));
            lemma_be64(x, s, a + 1);
        },
    }
}

} // verus!
