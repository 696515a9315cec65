//! The ways decoding and parsing can fail.
use vstd::prelude::*;

verus! {

/// A failure of one parse or decode operation, with the offending input.
#[derive(Debug, PartialEq, Eq)]
pub enum PokedexError {
    /// The text is not `#RGB` or `#RRGGBB` with hexadecimal digits.
    InvalidColorFormat(String),
    /// The name matches none of the known type tags.
    UnknownTypeTag(String),
    /// A typing list held this many entries instead of one or two.
    MalformedTypingList(usize),
}

} // verus!
