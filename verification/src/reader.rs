//! Building a `shapefile::Reader` from a zipped TIGER shapefile.
//!
//! TIGER shapefiles come in zip archives with a standard format; the
//! three members we need are the `.shp` (geometry), `.dbf` (attribute
//! table) and `.shx` (geometry index).  This module resolves and
//! materializes those members and hands them to the `shapefile` crate's
//! decoder, which needs random access to each.

use vstd::prelude::*;

use crate::archive::archive_members;
use crate::archive::archive_name_list;
use crate::archive::extract_shapefiles;
use crate::archive::extraction_failure;
use crate::archive::members_all_present;
use crate::errors::TIGERShapefileError;
use crate::member::MaterializedMember;
use crate::resolve::resolution_failure;
use crate::resolve::resolves_uniquely;
use crate::resolve::role_name;

verus! {

/// `shapefile::ShapeReader`, the decoder of the `.shp` geometry and its
/// `.shx` index; opaque to the library.
#[verifier::external_type_specification]
#[verifier::external_body]
#[verifier::reject_recursive_types(T)]
pub struct ExShapeReader<T>(shapefile::ShapeReader<T>);

/// `dbase::Reader`, the decoder of the `.dbf` attribute table; opaque to
/// the library.
#[verifier::external_type_specification]
#[verifier::external_body]
#[verifier::reject_recursive_types(T)]
pub struct ExDbaseReader<T>(shapefile::dbase::Reader<T>);

/// The paired geometry and attribute decoder over the materialized
/// members, ready to yield (shape, record) pairs.
///
/// It holds a `shapefile::Reader`; that type cannot be declared to Verus
/// (its struct carries `Read + Seek` bounds on its generics), so the
/// reader is held opaquely in this struct instead, with the `inner` field
/// exposed for the unverified code that consumes the decoder's output.
#[verifier::external_body]
pub struct DistrictReader {
    pub inner: shapefile::Reader<std::io::Cursor<Vec<u8>>, std::io::Cursor<Vec<u8>>>,
}

/// Whether `shapefile::ShapeReader::with_shx` accepts these `.shp` and
/// `.shx` bytes.  The sources are in-memory, so acceptance is a function
/// of the two byte sequences alone.
pub uninterp spec fn shp_parses(shp: Seq<u8>, shx: Seq<u8>) -> bool;

/// Whether `dbase::Reader::new` accepts these `.dbf` bytes; a function
/// of the byte sequence alone.
pub uninterp spec fn dbf_parses(dbf: Seq<u8>) -> bool;

/// The `.shp` and `.shx` byte sources a `ShapeReader` was built from and
/// decodes geometry out of.
pub uninterp spec fn shape_reader_sources(
    sr: shapefile::ShapeReader<std::io::Cursor<Vec<u8>>>,
) -> (Seq<u8>, Seq<u8>);

/// The `.dbf` byte source a `dbase::Reader` was built from and decodes
/// attribute records out of.
pub uninterp spec fn dbase_reader_source(
    dr: shapefile::dbase::Reader<std::io::Cursor<Vec<u8>>>,
) -> Seq<u8>;

/// The three byte sources the paired decoder reads, in the hand-off
/// order geometry (`.shp`), attributes (`.dbf`), index (`.shx`).
pub uninterp spec fn district_reader_sources(reader: DistrictReader) -> (
    Seq<u8>,
    Seq<u8>,
    Seq<u8>,
);

/// Relies on `shapefile::ShapeReader::with_shx`: builds the geometry
/// reader from the materialized `.shp` member and its `.shx` index.  It
/// succeeds exactly when the decoder accepts the two byte sources, and
/// the reader it returns decodes those very bytes.
#[verifier::external_body]
fn shape_reader_from_members(shp: MaterializedMember, shx: MaterializedMember) -> (r: Result<
    shapefile::ShapeReader<std::io::Cursor<Vec<u8>>>,
    TIGERShapefileError,
>)
    ensures
        r is Ok <==> shp_parses(shp.data@, shx.data@),
        r matches Ok(sr) ==> shape_reader_sources(sr) == (shp.data@, shx.data@),
        r matches Err(e) ==> e matches TIGERShapefileError::InvalidShapefile(_),
{
    shapefile::ShapeReader::with_shx(
        std::io::Cursor::new(shp.into_bytes()),
        std::io::Cursor::new(shx.into_bytes()),
    ).map_err(TIGERShapefileError::InvalidShapefile)
}

/// Relies on `dbase::Reader::new`: builds the attribute-table reader from
/// the materialized `.dbf` member.  It succeeds exactly when the decoder
/// accepts the byte source, and the reader it returns decodes those very
/// bytes.
#[verifier::external_body]
fn dbase_reader_from_member(dbf: MaterializedMember) -> (r: Result<
    shapefile::dbase::Reader<std::io::Cursor<Vec<u8>>>,
    TIGERShapefileError,
>)
    ensures
        r is Ok <==> dbf_parses(dbf.data@),
        r matches Ok(dr) ==> dbase_reader_source(dr) == dbf.data@,
        r matches Err(e) ==> e matches TIGERShapefileError::InvalidShapefile(_),
{
    match shapefile::dbase::Reader::new(std::io::Cursor::new(dbf.into_bytes())) {
        Ok(reader) => Ok(reader),
        Err(e) => Err(TIGERShapefileError::InvalidShapefile(shapefile::Error::DbaseError(e))),
    }
}

/// Relies on `shapefile::Reader::new`: pairs the geometry reader with the
/// attribute-table reader; it cannot fail, and the paired decoder reads
/// exactly the two readers' sources.
#[verifier::external_body]
fn assemble_reader(
    shape_reader: shapefile::ShapeReader<std::io::Cursor<Vec<u8>>>,
    dbase_reader: shapefile::dbase::Reader<std::io::Cursor<Vec<u8>>>,
) -> (reader: DistrictReader)
    ensures
        district_reader_sources(reader) == (
            shape_reader_sources(shape_reader).0,
            dbase_reader_source(dbase_reader),
            shape_reader_sources(shape_reader).1,
        ),
{
    DistrictReader { inner: shapefile::Reader::new(shape_reader, dbase_reader) }
}

/// Reads a zipped TIGER shapefile and returns a `shapefile::Reader` to be
/// used for further munging.
///
/// The archive must hold exactly one member each with the `.shp`, `.dbf`
/// and `.shx` extensions; those members are materialized into seekable
/// in-memory buffers and handed to the decoder.
///
/// # Errors
/// Fail-fast, each cause as its own variant:
/// * `MissingFile` / `TooManyFiles` when the archive's listing does not
///   hold exactly one member per role;
/// * `ZipFile` / `Io` when a resolved member cannot be decompressed (the
///   first such member, in shp, dbf, shx order);
/// * `InvalidShapefile` when the decoder rejects the materialized bytes
///   (the `.shp`/`.shx` pair first, then the `.dbf`).
///
/// Success is owed on every other archive, and the returned decoder
/// reads exactly the three resolved members' bytes, geometry first,
/// then attributes, then index.
pub fn shapefile_reader_from_zip_archive(
    zip_archive: zip::ZipArchive<std::io::Cursor<Vec<u8>>>,
) -> (r: Result<DistrictReader, TIGERShapefileError>)
    ensures
        r is Ok <==> {
            let list = archive_name_list(zip_archive);
            let members = archive_members(zip_archive);
            &&& resolves_uniquely(list)
            &&& members_all_present(list, members)
            &&& shp_parses(members[role_name(list, "shp"@)], members[role_name(list, "shx"@)])
            &&& dbf_parses(members[role_name(list, "dbf"@)])
        },
        match r {
            Ok(reader) => district_reader_sources(reader) == (
                archive_members(zip_archive)[role_name(archive_name_list(zip_archive), "shp"@)],
                archive_members(zip_archive)[role_name(archive_name_list(zip_archive), "dbf"@)],
                archive_members(zip_archive)[role_name(archive_name_list(zip_archive), "shx"@)],
            ),
            Err(e) => {
                let list = archive_name_list(zip_archive);
                let members = archive_members(zip_archive);
                ||| resolution_failure(list, e)
                ||| ((e matches TIGERShapefileError::ZipFile(_) || e matches
                TIGERShapefileError::Io(_)) && resolves_uniquely(list) && extraction_failure(
                    list,
                    members,
                ))
                ||| (e matches TIGERShapefileError::InvalidShapefile(_) && resolves_uniquely(list)
                    && members_all_present(list, members) && (!shp_parses(
                    members[role_name(list, "shp"@)],
                    members[role_name(list, "shx"@)],
                ) || (shp_parses(
                    members[role_name(list, "shp"@)],
                    members[role_name(list, "shx"@)],
                ) && !dbf_parses(members[role_name(list, "dbf"@)]))))
            },
        },
{
    let bundle = match extract_shapefiles(zip_archive) {
        Ok(b) => b,
        Err(e) => {
            return Err(e);
        },
    };
    let shape_reader = match shape_reader_from_members(bundle.shape_file, bundle.shapeindex_file) {
        Ok(sr) => sr,
        Err(e) => {
            return Err(e);
        },
    };
    let dbase_reader = match dbase_reader_from_member(bundle.db_file) {
        Ok(dr) => dr,
        Err(e) => {
            return Err(e);
        },
    };
    Ok(assemble_reader(shape_reader, dbase_reader))
}

} // verus!
