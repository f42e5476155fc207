//! Why reading a tag from its binary form failed.
use vstd::prelude::*;

verus! {

/// Why binary data could not be read as a tag.
#[derive(Debug, Clone, Copy, PartialEq, Eq, Structural)]
pub enum Error {
    /// The data ended before the tag did.
    Incomplete,
    /// A list holds an element of another type than the list's own.
    ListDifferentType,
    /// A type id that no tag has.
    UnknownTagId(u8),
    /// A name that is not valid CESU-8.
    InvalidJavaString,
}

} // verus!
