//! The geometry type and its binary form, both kept by the `postgis` crate.
//!
//! What this module states of that crate is believed, not proved: the two
//! names and the contracts of the two functions that call it.

use postgis::error::Error;
use postgis::ewkb::{AsEwkbGeometry, EwkbRead, EwkbWrite, GeometryT, Point};
use vstd::prelude::*;

verus! {

/// `postgis::error::Error`, with which the reader rejects its input. Nothing
/// is said of what it holds.
#[verifier::external_type_specification]
#[verifier::external_body]
pub struct ExError(Error);

/// A geometry over two-dimensional points: a point, a line string, a polygon,
/// one of their multiples, or a collection of geometries.
///
/// `inner` is the value as `postgis` keeps it. Nothing here looks inside it:
/// what a geometry holds is known only as [`ewkb`], its written form. A copy
/// is made by copying `inner`.
#[verifier::external_body]
#[derive(Debug)]
pub struct Geometry {
    pub inner: GeometryT<Point>,
}

/// What `geom` holds, as the bytes that `EwkbWrite::write_ewkb` writes for
/// it: the extended well-known binary form, little endian.
pub uninterp spec fn ewkb(geom: Geometry) -> Seq<u8>;

/// What `EwkbRead::read_ewkb` for `GeometryT<Point>` makes of `bytes`: the
/// written form of the geometry it reads, or `None` where it rejects them.
pub uninterp spec fn ewkb_parse(bytes: Seq<u8>) -> Option<Seq<u8>>;

/// The byte of the header of `bytes` that tells the type of the geometry:
/// the low byte of the type word, which follows the byte-order mark. A mark
/// of zero tells big-endian order.
pub open spec fn type_code(bytes: Seq<u8>) -> u8 {
    if bytes[0] == 0 {
        bytes[4]
    } else {
        bytes[1]
    }
}

/// Whether the reader rejects `bytes` by their first five alone: they end
/// before the type word does, or the type code is none of the seven.
pub open spec fn header_rejected(bytes: Seq<u8>) -> bool {
    bytes.len() < 5 || type_code(bytes) < 1 || type_code(bytes) > 7
}

/// Whether the reader reads the first `k` of `bytes` and no more: it rejects
/// them where they end before that place, and makes of them what it makes of
/// all of them where they end there or later.
pub open spec fn reads_to(bytes: Seq<u8>, k: int) -> bool {
    &&& 0 < k <= bytes.len()
    &&& forall|n: int| 0 <= n < k ==> ewkb_parse(#[trigger] bytes.subrange(0, n)) is None
    &&& forall|n: int|
        k <= n <= bytes.len() ==> ewkb_parse(#[trigger] bytes.subrange(0, n)) == ewkb_parse(bytes)
}

/// Whether `bytes` are the written form of a point and nothing more: the
/// mark of little-endian order, the type word of a point, with or without
/// the flag of a spatial reference identifier, that identifier where the
/// flag is set, and two coordinates of eight bytes each.
pub open spec fn point_form(bytes: Seq<u8>) -> bool {
    &&& bytes.len() == 21 || bytes.len() == 25
    &&& bytes[0] == 1
    &&& bytes[1] == 1
    &&& bytes[2] == 0
    &&& bytes[3] == 0
    &&& bytes[4] == (if bytes.len() == 25 { 0x20u8 } else { 0u8 })
}

/// Whether `bytes`, taken as a little-endian written form, start a geometry
/// collection that carries a spatial reference identifier of its own.
pub open spec fn collection_with_srid(bytes: Seq<u8>) -> bool {
    bytes[1] == 7 && bytes[4] & 0x20 == 0x20
}

/// Whether the member counts of a written form are whole: the writer counts
/// the members of a geometry in 32 bits, a member takes four bytes or more,
/// so no count of a form of this length has lost its high bits.
pub open spec fn counts_whole(bytes: Seq<u8>) -> bool {
    bytes.len() <= u32::MAX
}

/// Whether a written form is read back as it was written. The reader drops
/// the spatial reference identifier of a collection, and a count that is not
/// whole tells it to stop early.
pub open spec fn reads_back(bytes: Seq<u8>) -> bool {
    counts_whole(bytes) && !collection_with_srid(bytes)
}

/// Whether the reader rejects `bytes` wherever they are cut short.
pub open spec fn rejected_when_cut(bytes: Seq<u8>) -> bool {
    forall|n: int| 0 <= n < bytes.len() ==> ewkb_parse(#[trigger] bytes.subrange(0, n)) is None
}

/// Calls `EwkbWrite::write_ewkb` on `geom`, into an empty buffer.
///
/// Believed: the buffer then holds the written form of `geom`. The reader,
/// given those bytes, reads a geometry with the same written form, unless
/// [`reads_back`] excludes them; it reads all of them to do so, and so
/// rejects them wherever they are cut short, if their counts are whole.
/// Writing into a `Vec` does not fail.
///
/// The writer calls itself for each collection within another, and takes
/// stack as deep as the collections of `geom` lie; nothing here bounds that.
#[verifier::external_body]
pub(crate) fn write_geometry(geom: &Geometry) -> (out: Vec<u8>)
    ensures
        out@ == ewkb(*geom),
        reads_back(out@) ==> ewkb_parse(out@) == Some(out@),
        counts_whole(out@) ==> rejected_when_cut(out@),
{
    let mut out = Vec::<u8>::new();
    geom.inner.as_ewkb().write_ewkb(&mut out).unwrap();
    out
}

/// Calls `EwkbRead::read_ewkb` for `GeometryT<Point>` on `bytes`.
///
/// Believed: what comes back depends on `bytes` alone. The reader fails
/// where the header is one that [`header_rejected`] describes, and it reads
/// bytes in [`point_form`] as the point of which they are the written form,
/// the coordinates as the bits they are.
/// It reads from the front, byte after byte, and fails only where bytes that
/// it asks for are not there or a type code names no type: where it reads a
/// geometry, it has read up to one place in `bytes`, does not look at what
/// follows, and fails on bytes that end before that place.
///
/// The reader calls itself for each collection within another, and takes
/// stack as deep as the collections in `bytes` lie; nothing here bounds that.
#[verifier::external_body]
pub(crate) fn read_geometry(bytes: &Vec<u8>) -> (r: Result<Geometry, Error>)
    ensures
        match r {
            Ok(geom) => ewkb_parse(bytes@) == Some(ewkb(geom)),
            Err(_) => ewkb_parse(bytes@) is None,
        },
        header_rejected(bytes@) ==> r is Err,
        point_form(bytes@) ==> match r {
            Ok(geom) => ewkb(geom) == bytes@,
            Err(_) => false,
        },
        r is Ok ==> exists|k: int| #[trigger] reads_to(bytes@, k),
{
    match GeometryT::<Point>::read_ewkb(&mut bytes.as_slice()) {
        Ok(inner) => Ok(Geometry { inner }),
        Err(e) => Err(e),
    }
}

} // verus!
