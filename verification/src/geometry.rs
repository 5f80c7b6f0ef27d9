//! The geometry as a domain type of the generic value model.
//!
//! A geometry travels as a byte-sequence value that holds its written form.
//! Lifting writes the form; turning a value back reads it, and tells a value
//! of the wrong kind from one whose bytes are no geometry.

use crate::column::ColumnType;
use crate::ewkb::{
    counts_whole, ewkb, ewkb_parse, header_rejected, point_form, read_geometry, reads_back,
    reads_to, rejected_when_cut, write_geometry, Geometry,
};
use crate::value::{ArrayType, Value, ValueType, ValueTypeErr};
use vstd::prelude::*;
use vstd::std_specs::convert::FromSpecImpl;

verus! {

/// The outcome that is a kind mismatch.
pub open spec fn kind_mismatch() -> Result<Geometry, ValueTypeErr> {
    Err(ValueTypeErr::KindMismatch)
}

/// The outcome that is a malformed payload.
pub open spec fn malformed_payload() -> Result<Geometry, ValueTypeErr> {
    Err(ValueTypeErr::MalformedPayload)
}

/// Whether `geom` is well formed for the way through a value and back: its
/// written form is one that the reader reads back as written. That leaves
/// out a collection that carries a spatial reference identifier of its own,
/// which the reader drops, and a geometry with so many members that the
/// writer cannot count them in 32 bits.
pub open spec fn well_formed(geom: Geometry) -> bool {
    reads_back(ewkb(geom))
}

/// Whether `v` is `geom` lifted into the generic model: a byte-sequence
/// value, not null, that holds the written form of `geom`. With that comes
/// what the writer makes known of the form: the reader reads it back where
/// `geom` is well formed, and rejects it wherever it is cut short.
pub open spec fn lifted(geom: Geometry, v: Value) -> bool {
    &&& v.bytes() == Some(ewkb(geom))
    &&& well_formed(geom) ==> ewkb_parse(ewkb(geom)) == Some(ewkb(geom))
    &&& counts_whole(ewkb(geom)) ==> rejected_when_cut(ewkb(geom))
}

/// The place up to which the reader reads `bytes`, where it reads a geometry
/// from them. Bytes are one whole encoding where that place is their end.
pub open spec fn read_length(bytes: Seq<u8>) -> int {
    choose|k: int| reads_to(bytes, k)
}

impl ValueType for Geometry {
    /// A value that holds no bytes is a kind mismatch. One that holds bytes
    /// is what the reader makes of them: a malformed payload where it
    /// rejects them, else a geometry that holds what the reader read. With
    /// that comes what is known of the reader from the bytes alone.
    open spec fn converts(v: Value, r: Result<Self, ValueTypeErr>) -> bool {
        match v.bytes() {
            None => r == kind_mismatch(),
            Some(b) => {
                &&& header_rejected(b) ==> ewkb_parse(b) is None
                &&& point_form(b) ==> ewkb_parse(b) == Some(b)
                &&& ewkb_parse(b) is Some ==> reads_to(b, read_length(b))
                &&& match ewkb_parse(b) {
                    None => r == malformed_payload(),
                    Some(contents) => r matches Ok(geom) && ewkb(geom) == contents,
                }
            },
        }
    }

    open spec fn logical_type_name_spec() -> Seq<char> {
        "geometry"@
    }

    open spec fn array_type_spec() -> ArrayType {
        ArrayType::Bytes
    }

    fn try_from(v: Value) -> (r: Result<Self, ValueTypeErr>) {
        match v {
            Value::Bytes(Some(b)) => match read_geometry(&b) {
                Ok(geom) => Ok(geom),
                Err(_) => Err(ValueTypeErr::MalformedPayload),
            },
            _ => Err(ValueTypeErr::KindMismatch),
        }
    }

    fn logical_type_name() -> (r: String) {
        "geometry".to_owned()
    }

    fn array_type() -> (r: ArrayType) {
        ArrayType::Bytes
    }

    fn column_type() -> (r: ColumnType) {
        ColumnType::Custom(Self::logical_type_name())
    }
}

impl FromSpecImpl<Geometry> for Value {
    /// A value is known by its kind and by what it holds, not by where its
    /// bytes lie: `from` is held to [`lifted`], not to equality with one
    /// chosen value.
    open spec fn obeys_from_spec() -> bool {
        false
    }

    open spec fn from_spec(geom: Geometry) -> Self {
        choose|v: Value| lifted(geom, v)
    }
}

impl From<Geometry> for Value {
    /// Lifts a geometry into the generic model, for use as a literal or a
    /// bound parameter.
    fn from(geom: Geometry) -> (v: Self)
        ensures
            lifted(geom, v),
    {
        let b = write_geometry(&geom);
        Value::Bytes(Some(Box::new(b)))
    }
}

/// A well-formed geometry, lifted into a value and turned back, is a geometry
/// that holds what the first one held.
pub proof fn lemma_round_trip(geom: Geometry, v: Value, r: Result<Geometry, ValueTypeErr>)
    requires
        well_formed(geom),
        lifted(geom, v),
        Geometry::converts(v, r),
    ensures
        r matches Ok(back) && ewkb(back) == ewkb(geom),
{
}

/// A value of any kind but the byte-sequence kind is a kind mismatch,
/// whatever it holds; its payload is not looked at.
pub proof fn lemma_other_kind_rejected(v: Value, r: Result<Geometry, ValueTypeErr>)
    requires
        v.kind() != ArrayType::Bytes,
        Geometry::converts(v, r),
    ensures
        r == kind_mismatch(),
{
}

/// The null state of a kind, that of the byte-sequence kind too, is a kind
/// mismatch and never an empty geometry.
pub proof fn lemma_null_rejected(v: Value, r: Result<Geometry, ValueTypeErr>)
    requires
        v.is_null(),
        Geometry::converts(v, r),
    ensures
        r == kind_mismatch(),
{
}

/// Bytes that the reader rejects are a malformed payload; among them are all
/// that end within the header and all that name no geometry type.
pub proof fn lemma_malformed_rejected(v: Value, r: Result<Geometry, ValueTypeErr>)
    requires
        v.bytes() matches Some(b) && (header_rejected(b) || ewkb_parse(b) is None),
        Geometry::converts(v, r),
    ensures
        r == malformed_payload(),
{
}

/// Bytes from which a geometry is read, in either byte order and whatever
/// follows the geometry, are a malformed payload where they are cut before
/// the place up to which the reader reads them, and give a geometry that
/// holds the same where they are cut at that place or later. So every
/// proper prefix of one whole encoding is a malformed payload.
pub proof fn lemma_prefix_rejected(
    whole: Value,
    read: Result<Geometry, ValueTypeErr>,
    n: int,
    cut: Value,
    r: Result<Geometry, ValueTypeErr>,
)
    requires
        whole.bytes() is Some,
        Geometry::converts(whole, read),
        read is Ok,
        0 <= n <= whole.bytes().unwrap().len(),
        cut.bytes() == Some(whole.bytes().unwrap().subrange(0, n)),
        Geometry::converts(cut, r),
    ensures
        0 < read_length(whole.bytes().unwrap()) <= whole.bytes().unwrap().len(),
        n < read_length(whole.bytes().unwrap()) ==> r == malformed_payload(),
        n >= read_length(whole.bytes().unwrap()) ==> (r matches Ok(geom) && ewkb(geom) == ewkb(
            read.unwrap(),
        )),
{
}

/// The written form of a lifted geometry, cut short anywhere, is a malformed
/// payload, as long as the counts of the form are whole.
pub proof fn lemma_truncated_rejected(
    geom: Geometry,
    whole: Value,
    n: int,
    cut: Value,
    r: Result<Geometry, ValueTypeErr>,
)
    requires
        lifted(geom, whole),
        counts_whole(ewkb(geom)),
        0 <= n < ewkb(geom).len(),
        cut.bytes() == Some(ewkb(geom).subrange(0, n)),
        Geometry::converts(cut, r),
    ensures
        r == malformed_payload(),
{
}

/// Each outcome comes on its own inputs and on no others: a kind mismatch
/// where the value holds no bytes, a malformed payload where it holds bytes
/// that the reader rejects, a geometry that holds what the reader read where
/// it holds bytes that the reader accepts.
pub proof fn lemma_outcomes(v: Value, r: Result<Geometry, ValueTypeErr>)
    requires
        Geometry::converts(v, r),
    ensures
        r == kind_mismatch() <==> v.bytes() is None,
        r == malformed_payload() <==> (v.bytes() matches Some(b) && ewkb_parse(b) is None),
        r is Ok <==> (v.bytes() matches Some(b) && ewkb_parse(b) is Some),
        r matches Ok(geom) ==> v.bytes() matches Some(b) && ewkb_parse(b) == Some(ewkb(geom)),
{
}

/// The column type handed out for the geometry carries the logical type
/// name, `geometry`, and so any two of them name the same custom type.
pub proof fn lemma_column_type_stable(a: ColumnType, b: ColumnType)
    requires
        a.custom_name() == Some(Geometry::logical_type_name_spec()),
        b.custom_name() == Some(Geometry::logical_type_name_spec()),
    ensures
        a.custom_name() == b.custom_name(),
        a.custom_name() == Some("geometry"@),
{
}

} // verus!
