//! PostgreSQL extensions to a backend-agnostic model of SQL expressions.
//!
//! The generic model has a closed set of operators and a closed set of value
//! kinds. A dialect adds to both without reopening either:
//!
//! - [`PgBinOper`] is the operator set of PostgreSQL. One member of the
//!   generic [`BinOper`] carries it, and [`lemma_wrapping_injective`] shows
//!   that nothing is lost on the way.
//! - [`ValueType`] is the contract by which a domain type travels through
//!   the generic [`Value`]. [`Geometry`] meets it: a geometry travels as a
//!   byte-sequence value that holds its extended well-known binary form.
//!
//! The binary form is that of the `postgis` crate; the module [`ewkb`] holds
//! all that is taken from it on trust.

pub mod column;
pub mod ewkb;
pub mod geometry;
pub mod operator;
pub mod value;

pub use column::ColumnType;
pub use ewkb::Geometry;
pub use operator::{lemma_wrapping_injective, BinOper, PgBinOper};
pub use value::{ArrayType, Value, ValueType, ValueTypeErr};
