//! Reading members out of a zipped TIGER shapefile archive.
//!
//! The archive is a `zip::ZipArchive` over an in-memory byte source.  Its
//! member listing and the decompressed contents of each member are named
//! by two uninterpreted functions, [`archive_name_list`] and
//! [`archive_members`]; the trusted wrappers below state what the `zip`
//! crate's calls return in terms of those names, and everything built on
//! top is verified against them.

use vstd::prelude::*;

use crate::errors::TIGERShapefileError;
use crate::member::MaterializedMember;
use crate::resolve::get_shapefile_names_from_tiger_zipfile;
use crate::resolve::resolution_failure;
use crate::resolve::resolves_uniquely;
use crate::resolve::role_name;

verus! {

/// `std::io::Cursor`, the in-memory byte source the archive reads from;
/// opaque to the library.
#[verifier::external_type_specification]
#[verifier::external_body]
#[verifier::reject_recursive_types(T)]
pub struct ExCursor<T>(std::io::Cursor<T>);

/// `zip::ZipArchive`, the archive handle; opaque to the library, its
/// contents reachable only through [`archive_name_list`] and
/// [`archive_members`].
#[verifier::external_type_specification]
#[verifier::external_body]
#[verifier::reject_recursive_types(R)]
pub struct ExZipArchive<R>(zip::ZipArchive<R>);

/// The archive's member names, in the archive's own listing order.
pub uninterp spec fn archive_name_list(
    archive: zip::ZipArchive<std::io::Cursor<Vec<u8>>>,
) -> Seq<Seq<char>>;

/// The decompressed contents of the archive's members, keyed by member
/// name: a name is in the domain exactly when the `zip` crate finds a
/// member under that name and its contents decompress cleanly (checksum
/// included).  The archive lives wholly in memory, so this is a function
/// of the archive value alone.
pub uninterp spec fn archive_members(archive: zip::ZipArchive<std::io::Cursor<Vec<u8>>>) -> Map<
    Seq<char>,
    Seq<u8>,
>;

/// Relies on `zip::ZipArchive::file_names`: yields the name of every
/// member of the archive, in the archive's listing order.
#[verifier::external_body]
fn member_names(archive: &zip::ZipArchive<std::io::Cursor<Vec<u8>>>) -> (names: Vec<String>)
    ensures
        names.deep_view() == archive_name_list(*archive),
{
    archive.file_names().map(|n| n.to_owned()).collect()
}

/// Relies on `zip::ZipArchive::by_name` and on `ZipFile`'s `Read`
/// implementation: it succeeds exactly when the named member exists and
/// decompresses cleanly — which is [`archive_members`]'s domain — and on
/// success the returned buffer holds exactly that member's decompressed
/// contents.  Neither call changes the archive's entry table.
#[verifier::external_body]
fn read_member_bytes(archive: &mut zip::ZipArchive<std::io::Cursor<Vec<u8>>>, name: &str) -> (r:
    Result<Vec<u8>, TIGERShapefileError>)
    ensures
        archive_name_list(*final(archive)) == archive_name_list(*old(archive)),
        archive_members(*final(archive)) == archive_members(*old(archive)),
        r is Ok <==> archive_members(*old(archive)).dom().contains(name@),
        r matches Ok(bytes) ==> bytes@ == archive_members(*old(archive))[name@],
        r matches Err(e) ==> e matches TIGERShapefileError::ZipFile(_) || e matches
            TIGERShapefileError::Io(_),
{
    match archive.by_name(name) {
        Ok(mut file) => {
            let mut buffer = Vec::new();
            match std::io::Read::read_to_end(&mut file, &mut buffer) {
                Ok(_) => Ok(buffer),
                Err(e) => Err(TIGERShapefileError::Io(e)),
            }
        },
        Err(e) => Err(TIGERShapefileError::ZipFile(e)),
    }
}

/// Copies the named member's decompressed bytes into a fresh seekable
/// buffer whose read position is at the start.  Succeeds exactly when
/// the archive holds a cleanly decompressing member under that name.
pub fn extract_file_in_memory(
    archive: &mut zip::ZipArchive<std::io::Cursor<Vec<u8>>>,
    name: &str,
) -> (r: Result<MaterializedMember, TIGERShapefileError>)
    ensures
        archive_name_list(*final(archive)) == archive_name_list(*old(archive)),
        archive_members(*final(archive)) == archive_members(*old(archive)),
        r is Ok <==> archive_members(*old(archive)).dom().contains(name@),
        r matches Ok(m) ==> m.wf() && m.pos == 0 && m.data@ == archive_members(
            *old(archive),
        )[name@],
        r matches Err(e) ==> e matches TIGERShapefileError::ZipFile(_) || e matches
            TIGERShapefileError::Io(_),
{
    match read_member_bytes(archive, name) {
        Ok(bytes) => Ok(MaterializedMember::new(bytes)),
        Err(e) => Err(e),
    }
}

/// Represents the actual files extracted from a zipped TIGER shapefile:
/// the three materialized byte sources handed to the decoder.
#[derive(Clone, Debug)]
pub struct TIGERShapefileArchive {
    pub shape_file: MaterializedMember,
    pub db_file: MaterializedMember,
    pub shapeindex_file: MaterializedMember,
}

/// Every resolved member decompresses cleanly: the condition under which
/// materialization of the whole bundle is owed to succeed.
pub open spec fn members_all_present(
    list: Seq<Seq<char>>,
    members: Map<Seq<char>, Seq<u8>>,
) -> bool {
    &&& members.dom().contains(role_name(list, "shp"@))
    &&& members.dom().contains(role_name(list, "dbf"@))
    &&& members.dom().contains(role_name(list, "shx"@))
}

/// Which materialization fails first, in the extraction order shp, dbf,
/// shx: the returned error is that member's.
pub open spec fn extraction_failure(
    list: Seq<Seq<char>>,
    members: Map<Seq<char>, Seq<u8>>,
) -> bool {
    ||| !members.dom().contains(role_name(list, "shp"@))
    ||| members.dom().contains(role_name(list, "shp"@)) && !members.dom().contains(
        role_name(list, "dbf"@),
    )
    ||| members.dom().contains(role_name(list, "shp"@)) && members.dom().contains(
        role_name(list, "dbf"@),
    ) && !members.dom().contains(role_name(list, "shx"@))
}

/// The bundle holds, for each role, the decompressed contents of the
/// archive's unique member with that extension, positioned at the start.
pub open spec fn bundle_matches_archive(
    bundle: TIGERShapefileArchive,
    list: Seq<Seq<char>>,
    members: Map<Seq<char>, Seq<u8>>,
) -> bool {
    &&& resolves_uniquely(list)
    &&& members_all_present(list, members)
    &&& bundle.shape_file.wf() && bundle.shape_file.pos == 0
    &&& bundle.db_file.wf() && bundle.db_file.pos == 0
    &&& bundle.shapeindex_file.wf() && bundle.shapeindex_file.pos == 0
    &&& bundle.shape_file.data@ == members[role_name(list, "shp"@)]
    &&& bundle.db_file.data@ == members[role_name(list, "dbf"@)]
    &&& bundle.shapeindex_file.data@ == members[role_name(list, "shx"@)]
}

/// Resolves the archive's three required members and materializes each of
/// them, fail-fast: the first resolution or extraction failure aborts,
/// and success is owed whenever the listing resolves uniquely and all
/// three resolved members decompress cleanly.
pub fn extract_shapefiles(mut zip_archive: zip::ZipArchive<std::io::Cursor<Vec<u8>>>) -> (r:
    Result<TIGERShapefileArchive, TIGERShapefileError>)
    ensures
        r is Ok <==> resolves_uniquely(archive_name_list(zip_archive)) && members_all_present(
            archive_name_list(zip_archive),
            archive_members(zip_archive),
        ),
        match r {
            Ok(bundle) => bundle_matches_archive(
                bundle,
                archive_name_list(zip_archive),
                archive_members(zip_archive),
            ),
            Err(e) => resolution_failure(archive_name_list(zip_archive), e) || ((e matches
            TIGERShapefileError::ZipFile(_) || e matches TIGERShapefileError::Io(_))
                && resolves_uniquely(archive_name_list(zip_archive)) && extraction_failure(
                archive_name_list(zip_archive),
                archive_members(zip_archive),
            )),
        },
{
    let names = member_names(&zip_archive);
    let manifest = match get_shapefile_names_from_tiger_zipfile(&names) {
        Ok(m) => m,
        Err(e) => {
            return Err(e);
        },
    };
    let shape_file = match extract_file_in_memory(&mut zip_archive, manifest.shp_filename.as_str()) {
        Ok(m) => m,
        Err(e) => {
            return Err(e);
        },
    };
    let db_file = match extract_file_in_memory(&mut zip_archive, manifest.dbf_filename.as_str()) {
        Ok(m) => m,
        Err(e) => {
            return Err(e);
        },
    };
    let shapeindex_file = match extract_file_in_memory(
        &mut zip_archive,
        manifest.shx_filename.as_str(),
    ) {
        Ok(m) => m,
        Err(e) => {
            return Err(e);
        },
    };
    Ok(TIGERShapefileArchive { shape_file, db_file, shapeindex_file })
}

} // verus!
