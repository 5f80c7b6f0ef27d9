//! The generic value model and the contract by which a domain type joins it.

use crate::column::ColumnType;
use vstd::prelude::*;

verus! {

/// The kinds of the generic value model.
#[derive(Debug, Clone, Copy, PartialEq, Eq, Structural)]
pub enum ArrayType {
    Bool,
    TinyInt,
    SmallInt,
    Int,
    BigInt,
    TinyUnsigned,
    SmallUnsigned,
    Unsigned,
    BigUnsigned,
    String,
    Char,
    Bytes,
}

/// A literal or bound parameter of the generic model.
///
/// Every kind has a null state, `None`, and owns its payload.
#[derive(Debug, Clone, PartialEq, Eq)]
pub enum Value {
    Bool(Option<bool>),
    TinyInt(Option<i8>),
    SmallInt(Option<i16>),
    Int(Option<i32>),
    BigInt(Option<i64>),
    TinyUnsigned(Option<u8>),
    SmallUnsigned(Option<u16>),
    Unsigned(Option<u32>),
    BigUnsigned(Option<u64>),
    String(Option<Box<String>>),
    Char(Option<char>),
    Bytes(Option<Box<Vec<u8>>>),
}

impl Value {
    /// The kind of `self`; a value tells its kind by itself.
    pub open spec fn kind(self) -> ArrayType {
        match self {
            Value::Bool(_) => ArrayType::Bool,
            Value::TinyInt(_) => ArrayType::TinyInt,
            Value::SmallInt(_) => ArrayType::SmallInt,
            Value::Int(_) => ArrayType::Int,
            Value::BigInt(_) => ArrayType::BigInt,
            Value::TinyUnsigned(_) => ArrayType::TinyUnsigned,
            Value::SmallUnsigned(_) => ArrayType::SmallUnsigned,
            Value::Unsigned(_) => ArrayType::Unsigned,
            Value::BigUnsigned(_) => ArrayType::BigUnsigned,
            Value::String(_) => ArrayType::String,
            Value::Char(_) => ArrayType::Char,
            Value::Bytes(_) => ArrayType::Bytes,
        }
    }

    /// Whether `self` is the null state of its kind.
    pub open spec fn is_null(self) -> bool {
        match self {
            Value::Bool(v) => v is None,
            Value::TinyInt(v) => v is None,
            Value::SmallInt(v) => v is None,
            Value::Int(v) => v is None,
            Value::BigInt(v) => v is None,
            Value::TinyUnsigned(v) => v is None,
            Value::SmallUnsigned(v) => v is None,
            Value::Unsigned(v) => v is None,
            Value::BigUnsigned(v) => v is None,
            Value::String(v) => v is None,
            Value::Char(v) => v is None,
            Value::Bytes(v) => v is None,
        }
    }

    /// The bytes that `self` holds: `Some` exactly when `self` is of the
    /// byte-sequence kind and not null.
    pub open spec fn bytes(self) -> Option<Seq<u8>> {
        match self {
            Value::Bytes(Some(b)) => Some(b@),
            _ => None,
        }
    }
}

/// Why a value could not be turned into a domain type.
#[derive(Debug, Clone, Copy, PartialEq, Eq, Structural)]
pub enum ValueTypeErr {
    /// The value is not of the kind that carries the domain type, or is null.
    KindMismatch,
    /// The value is of the right kind and its payload is no encoding of the
    /// domain type.
    MalformedPayload,
}

/// The contract by which a domain type travels through [`Value`].
///
/// The domain type picks one kind to carry it and is no kind of its own, so
/// that no new member of [`Value`] is needed for it. It has one name, its
/// logical type name, and in schema statements it stands under the custom
/// column type of that name.
pub trait ValueType: Sized {
    /// Whether `r` is the outcome of turning `v` into `Self`: which values
    /// are a kind mismatch, which a malformed payload, and what the domain
    /// value holds where there is one.
    spec fn converts(v: Value, r: Result<Self, ValueTypeErr>) -> bool;

    /// The name of the domain type, which is also the name of its column
    /// type.
    spec fn logical_type_name_spec() -> Seq<char>;

    /// The kind that stands for the domain type inside an array.
    spec fn array_type_spec() -> ArrayType;

    /// Turns a generic value into the domain type.
    fn try_from(v: Value) -> (r: Result<Self, ValueTypeErr>)
        ensures
            Self::converts(v, r),
    ;

    /// The name of the domain type, for diagnostics and schema naming.
    fn logical_type_name() -> (r: String)
        ensures
            r@ == Self::logical_type_name_spec(),
    ;

    /// The kind under which arrays of the domain type are declared.
    fn array_type() -> (r: ArrayType)
        ensures
            r == Self::array_type_spec(),
    ;

    /// The column type of the domain type: the custom type that carries the
    /// logical type name.
    fn column_type() -> (r: ColumnType)
        ensures
            r.custom_name() == Some(Self::logical_type_name_spec()),
    ;
}

} // verus!
