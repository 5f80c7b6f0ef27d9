//! The generic operator set and the PostgreSQL extension to it.

use vstd::prelude::*;
use vstd::std_specs::convert::FromSpecImpl;

verus! {

/// Binary operators that exist only on the PostgreSQL surface.
///
/// Each member stands for one rendering template. Operators that differ only
/// in which operand is the subject (`Contains`, `Contained`) are two members.
#[derive(Debug, Clone, Copy, PartialEq, Eq, Structural)]
pub enum PgBinOper {
    ILike,
    NotILike,
    Matches,
    Contains,
    Contained,
    Concatenate,
    Overlap,
    Similarity,
    WordSimilarity,
    StrictWordSimilarity,
    SimilarityDistance,
    WordSimilarityDistance,
    StrictWordSimilarityDistance,
    /// `->`. Retrieves a JSON field as a JSON value.
    GetJsonField,
    /// `->>`. Retrieves a JSON field as a native scalar.
    CastJsonField,
    /// `~`. Regular expression match.
    Regex,
    /// `~*`. Regular expression match, case insensitive.
    RegexCaseInsensitive,
    /// `<->`. Euclidean distance between two vectors.
    EuclideanDistance,
    /// `<#>`. Negative inner product of two vectors.
    NegativeInnerProduct,
    /// `<=>`. Cosine distance between two vectors.
    CosineDistance,
}

/// Binary operators of the generic expression model.
///
/// The set is closed; `PgOperator` is the one member that carries a dialect's
/// own operator.
#[derive(Debug, Clone, Copy, PartialEq, Eq, Structural)]
pub enum BinOper {
    And,
    Or,
    Like,
    NotLike,
    Is,
    IsNot,
    In,
    NotIn,
    Between,
    NotBetween,
    Equal,
    NotEqual,
    SmallerThan,
    GreaterThan,
    SmallerThanOrEqual,
    GreaterThanOrEqual,
    Add,
    Sub,
    Mul,
    Div,
    Mod,
    BitAnd,
    BitOr,
    LShift,
    RShift,
    As,
    Escape,
    PgOperator(PgBinOper),
}

impl BinOper {
    /// The generic operator that carries the dialect operator `o`.
    pub open spec fn wrap(o: PgBinOper) -> BinOper {
        BinOper::PgOperator(o)
    }

    /// The dialect operator that `self` carries, if it carries one.
    pub open spec fn extension(self) -> Option<PgBinOper> {
        match self {
            BinOper::PgOperator(o) => Some(o),
            _ => None,
        }
    }

    /// Hands the dialect operator to the dialect's renderer; `None` for a
    /// generic operator.
    pub fn pg_operator(&self) -> (r: Option<PgBinOper>)
        ensures
            r == self.extension(),
    {
        match self {
            BinOper::PgOperator(o) => Some(*o),
            _ => None,
        }
    }
}

impl FromSpecImpl<PgBinOper> for BinOper {
    open spec fn obeys_from_spec() -> bool {
        true
    }

    open spec fn from_spec(o: PgBinOper) -> Self {
        BinOper::wrap(o)
    }
}

impl From<PgBinOper> for BinOper {
    fn from(o: PgBinOper) -> (r: Self)
        ensures
            r == BinOper::wrap(o),
    {
        Self::PgOperator(o)
    }
}

/// Wrapping loses nothing: the wrapped operator carries exactly the dialect
/// operator it was made from, and distinct dialect operators wrap to distinct
/// generic operators.
pub proof fn lemma_wrapping_injective(a: PgBinOper, b: PgBinOper)
    ensures
        BinOper::wrap(a).extension() == Some(a),
        a != b ==> BinOper::wrap(a) != BinOper::wrap(b),
{
}

} // verus!
