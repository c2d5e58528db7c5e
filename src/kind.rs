//! The closed set of value kinds and their single-byte wire codes.
use vstd::prelude::*;

verus! {

/// The type tag that precedes every value on the wire.
#[derive(Clone, Copy, Debug, PartialEq, Eq, Structural)]
pub enum Kind {
    Nil,
    Array,
    Dict,
    Any,
    Bytes,
    String,
    Error,
    Bool,
    U8,
    U16,
    U32,
    U64,
    I32,
    I64,
    F32,
    F64,
    Unknown,
}

impl Kind {
    /// The wire code of a kind; `Unknown` sits just past the last real code.
    pub open spec fn code(self) -> u8 {
        match self {
            Kind::Nil => 0x00,
            Kind::Array => 0x01,
            Kind::Dict => 0x02,
            Kind::Any => 0x03,
            Kind::Bytes => 0x04,
            Kind::String => 0x05,
            Kind::Error => 0x06,
            Kind::Bool => 0x07,
            Kind::U8 => 0x08,
            Kind::U16 => 0x09,
            Kind::U32 => 0x0a,
            Kind::U64 => 0x0b,
            Kind::I32 => 0x0c,
            Kind::I64 => 0x0d,
            Kind::F32 => 0x0e,
            Kind::F64 => 0x0f,
            Kind::Unknown => 0x10,
        }
    }

    /// The kind whose code is `b`; every byte from `0x10` on is `Unknown`.
    pub open spec fn from_code(b: u8) -> Kind {
        if b == 0x00 {
            Kind::Nil
        } else if b == 0x01 {
            Kind::Array
        } else if b == 0x02 {
            Kind::Dict
        } else if b == 0x03 {
            Kind::Any
        } else if b == 0x04 {
            Kind::Bytes
        } else if b == 0x05 {
            Kind::String
        } else if b == 0x06 {
            Kind::Error
        } else if b == 0x07 {
            Kind::Bool
        } else if b == 0x08 {
            Kind::U8
        } else if b == 0x09 {
            Kind::U16
        } else if b == 0x0a {
            Kind::U32
        } else if b == 0x0b {
            Kind::U64
        } else if b == 0x0c {
            Kind::I32
        } else if b == 0x0d {
            Kind::I64
        } else if b == 0x0e {
            Kind::F32
        } else if b == 0x0f {
            Kind::F64
        } else {
            Kind::Unknown
        }
    }

    /// A kind that has a code of its own on the wire (every kind but `Unknown`).
    pub open spec fn is_wire_kind(self) -> bool {
        self != Kind::Unknown
    }

    /// Returns the wire code of this kind.
    pub fn code_of(&self) -> (r: u8)
        ensures
            r == self.code(),
    {
        match self {
            Kind::Nil => 0x00,
            Kind::Array => 0x01,
            Kind::Dict => 0x02,
            Kind::Any => 0x03,
            Kind::Bytes => 0x04,
            Kind::String => 0x05,
            Kind::Error => 0x06,
            Kind::Bool => 0x07,
            Kind::U8 => 0x08,
            Kind::U16 => 0x09,
            Kind::U32 => 0x0a,
            Kind::U64 => 0x0b,
            Kind::I32 => 0x0c,
            Kind::I64 => 0x0d,
            Kind::F32 => 0x0e,
            Kind::F64 => 0x0f,
            Kind::Unknown => 0x10,
        }
    }

    /// Maps a wire code to its kind; unrecognised codes map to `Unknown`.
    pub fn kind_of(b: u8) -> (r: Kind)
        ensures
            r == Kind::from_code(b),
            b < 0x10 ==> r.code() == b && r.is_wire_kind(),
            b >= 0x10 ==> r == Kind::Unknown,
    {
        if b == 0x00 {
            Kind::Nil
        } else if b == 0x01 {
            Kind::Array
        } else if b == 0x02 {
            Kind::Dict
        } else if b == 0x03 {
            Kind::Any
        } else if b == 0x04 {
            Kind::Bytes
        } else if b == 0x05 {
            Kind::String
        } else if b == 0x06 {
            Kind::Error
        } else if b == 0x07 {
            Kind::Bool
        } else if b == 0x08 {
            Kind::U8
        } else if b == 0x09 {
            Kind::U16
        } else if b == 0x0a {
            Kind::U32
        } else if b == 0x0b {
            Kind::U64
        } else if b == 0x0c {
            Kind::I32
        } else if b == 0x0d {
            Kind::I64
        } else if b == 0x0e {
            Kind::F32
        } else if b == 0x0f {
            Kind::F64
        } else {
            Kind::Unknown
        }
    }
}

/// Decoding a kind's own code gives the kind back.
pub proof fn lemma_code_round_trip(k: Kind)
    requires
        k.is_wire_kind(),
    ensures
        Kind::from_code(k.code()) == k,
        k.code() < 0x10,
{
}

} // verus!
