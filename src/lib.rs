//! Polyglot: a self-describing, tag-prefixed binary wire format, with an
//! encoder that appends typed values to a byte buffer, a decoder that
//! consumes and validates them, and the decisions of a C-callable surface.
use vstd::prelude::*;

pub mod kind;
pub mod wire;
pub mod lemmas;
pub mod encoder;
pub mod decoder;
pub mod laws;
pub mod bindings;

pub use bindings::{Buffer, PolyglotStatus, Status};
pub use decoder::{Decoder, DecodingError};
pub use encoder::Encoder;
pub use kind::Kind;

verus! {

} // verus!
