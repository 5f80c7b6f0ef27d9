//! Column types, as schema statements name them.

use vstd::prelude::*;

verus! {

/// The type of a column in generated schema statements.
///
/// `Custom` names a type that the dialect defines and this set does not know.
#[derive(Debug, Clone, PartialEq, Eq)]
pub enum ColumnType {
    Boolean,
    TinyInteger,
    SmallInteger,
    Integer,
    BigInteger,
    TinyUnsigned,
    SmallUnsigned,
    Unsigned,
    BigUnsigned,
    Char,
    Text,
    Blob,
    Custom(String),
}

impl ColumnType {
    /// The name that a custom type carries; `None` for a built-in type.
    pub open spec fn custom_name(self) -> Option<Seq<char>> {
        match self {
            ColumnType::Custom(name) => Some(name@),
            _ => None,
        }
    }
}

} // verus!
