//! What holds of the format as a whole: every value reads back as itself,
//! wherever it stands, and readers of other kinds reject it.
use vstd::prelude::*;

use crate::kind::{lemma_code_round_trip, Kind};
use crate::lemmas::lemma_parse_at;
use crate::wire::{
    encode_value, parse_array, parse_dict, parse_i32, parse_i64, parse_u16, parse_u32, parse_u64,
    parse_value, parse_varuint, stands_at, tag_at, Value,
};

verus! {

/// Shows that `e` stands at the start of `e + tail`.
proof fn lemma_at_start(e: Seq<u8>, tail: Seq<u8>)
    ensures
        stands_at(e + tail, 0, e),
{
    assert((e + tail).subrange(0, e.len() as int) =~= e);
}

/// Round trip: reading a value's encoding back, as the value's kind, gives the
/// value and consumes the whole encoding.
pub proof fn round_trip(v: Value)
    requires
        v.valid(),
    ensures
        parse_value(v.kind(), encode_value(v), 0) == Some((v, encode_value(v).len())),
{
    lemma_at_start(encode_value(v), seq![]);
    assert(encode_value(v) + seq![] =~= encode_value(v));
    lemma_parse_at(v, encode_value(v), 0);
}

/// Values that follow one another are read back in turn: the first read
/// returns the first value and stops where the second begins, and a second
/// read there returns the second value.
pub proof fn prefix_independence(v1: Value, v2: Value)
    requires
        v1.valid(),
        v2.valid(),
    ensures
        ({
            let s = encode_value(v1) + encode_value(v2);
            &&& parse_value(v1.kind(), s, 0) == Some((v1, encode_value(v1).len()))
            &&& parse_value(v2.kind(), s, encode_value(v1).len()) == Some(
                (v2, encode_value(v2).len()),
            )
        }),
{
    let e1 = encode_value(v1);
    let e2 = encode_value(v2);
    let s = e1 + e2;
    lemma_at_start(e1, e2);
    lemma_parse_at(v1, s, 0);
    assert(s.subrange(e1.len() as int, (e1.len() + e2.len()) as int) =~= e2);
    lemma_parse_at(v2, s, e1.len());
}

/// A value reads back as itself wherever it stands, whatever bytes come
/// before or after it.
pub proof fn decodes_in_context(pre: Seq<u8>, v: Value, tail: Seq<u8>)
    requires
        v.valid(),
    ensures
        parse_value(v.kind(), pre + encode_value(v) + tail, pre.len()) == Some(
            (v, encode_value(v).len()),
        ),
{
    let e = encode_value(v);
    let s = pre + e + tail;
    assert(s.subrange(pre.len() as int, (pre.len() + e.len()) as int) =~= e);
    lemma_parse_at(v, s, pre.len());
}

/// A reader of any kind but the value's own (and but `None`, which only
/// probes) rejects the value's encoding, whatever follows it.
pub proof fn tag_rejection(v: Value, k: Kind, tail: Seq<u8>)
    requires
        k != v.kind(),
        k != Kind::Nil,
    ensures
        parse_value(k, encode_value(v) + tail, 0) is None,
        k == Kind::Array ==> parse_array(encode_value(v) + tail, 0) is None,
        k == Kind::Dict ==> parse_dict(encode_value(v) + tail, 0) is None,
{
    let s = encode_value(v) + tail;
    assert(s[0] == v.kind().code());
    lemma_code_round_trip(v.kind());
    if k.is_wire_kind() {
        lemma_code_round_trip(k);
    }
    assert(!tag_at(s, 0, k));
}

/// The `None` probe over any other value's encoding answers `false`, and the
/// value is then still read back from the same position.
pub proof fn none_probe(v: Value, tail: Seq<u8>)
    requires
        v.valid(),
        v.kind() != Kind::Nil,
    ensures
        !tag_at(encode_value(v) + tail, 0, Kind::Nil),
        parse_value(v.kind(), encode_value(v) + tail, 0) == Some((v, encode_value(v).len())),
{
    let s = encode_value(v) + tail;
    assert(s[0] == v.kind().code());
    lemma_code_round_trip(v.kind());
    lemma_at_start(encode_value(v), tail);
    lemma_parse_at(v, s, 0);
}

/// A varuint read with a bound of `limit` bytes never takes more, and fails
/// when the first `limit` bytes all carry the continuation bit.
pub proof fn varuint_bounds(s: Seq<u8>, i: nat, limit: nat)
    ensures
        parse_varuint(s, i, limit) matches Some((_, n)) ==> 1 <= n <= limit,
        (forall|j: int| i <= j < i + limit && j < s.len() ==> s[j] >= 128) ==> parse_varuint(
            s,
            i,
            limit,
        ) is None,
    decreases limit,
{
    if limit > 0 && i < s.len() && s[i as int] >= 128 {
        varuint_bounds(s, i + 1, (limit - 1) as nat);
    }
}

/// The integer kinds read at most `ceil(8 * b / 7)` payload bytes for a
/// width of `b` bytes: three for U16, five for U32 and I32, ten for U64 and
/// I64, each after its tag.
pub proof fn integer_width_bounds(s: Seq<u8>, i: nat)
    ensures
        parse_u16(s, i) matches Some((_, n)) ==> n <= 1 + 3,
        parse_u32(s, i) matches Some((_, n)) ==> n <= 1 + 5,
        parse_i32(s, i) matches Some((_, n)) ==> n <= 1 + 5,
        parse_u64(s, i) matches Some((_, n)) ==> n <= 1 + 10,
        parse_i64(s, i) matches Some((_, n)) ==> n <= 1 + 10,
{
    varuint_bounds(s, i + 1, 3);
    varuint_bounds(s, i + 1, 5);
    varuint_bounds(s, i + 1, 10);
}

} // verus!
