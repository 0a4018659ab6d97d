//! Errors that can occur when reading TIGER shapefile archives.

use vstd::prelude::*;

verus! {

/// `zip::result::ZipError`, declared so that it can be carried inside
/// [`TIGERShapefileError`]; the library never looks inside it.
#[verifier::external_type_specification]
#[verifier::external_body]
pub struct ExZipError(zip::result::ZipError);

/// `shapefile::Error`, declared so that it can be carried inside
/// [`TIGERShapefileError`]; the library never looks inside it.
#[verifier::external_type_specification]
#[verifier::external_body]
pub struct ExShapefileError(shapefile::Error);

/// `std::io::Error`, declared so that it can be carried inside
/// [`TIGERShapefileError`]; the library never looks inside it.
#[verifier::external_type_specification]
#[verifier::external_body]
pub struct ExIoError(std::io::Error);

/// Errors that can occur when reading TIGER shapefiles.
#[derive(Debug)]
pub enum TIGERShapefileError {
    /// One of three expected files (`.shp`, `.dbf`, or `.shx`) is missing
    /// from the TIGER shapefile `.zip` archive.
    MissingFile { extension: String },
    /// There are multiple `.shp`, `.dbf`, or `.shx` files in the TIGER
    /// shapefile `.zip` archive (there should only be one of each).
    TooManyFiles { extension: String },
    /// There was an error of some kind in reading the TIGER shapefile
    /// `.zip` archive.
    ZipFile(zip::result::ZipError),
    /// There was an error in processing or parsing the TIGER shapefile.
    InvalidShapefile(shapefile::Error),
    /// There was some kind of IO error (likely in `.zip` extraction).
    Io(std::io::Error),
}

} // verus!
