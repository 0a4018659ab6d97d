//! Batch geocoding against cartographic boundary archives.
//!
//! Given a set of query points and a zipped boundary dataset, the library
//! locates the three required members of the archive (geometry, index and
//! attribute table), materializes them into seekable byte buffers, hands
//! them to the `shapefile` decoder, and labels each point with the names of
//! the districts whose area contains it.

pub mod archive;
pub mod attributes;
pub mod errors;
pub mod extension;
pub mod geometry;
pub mod matching;
pub mod member;
pub mod reader;
pub mod resolve;

pub use reader::shapefile_reader_from_zip_archive;

pub use archive::extract_file_in_memory;
pub use archive::extract_shapefiles;
pub use archive::TIGERShapefileArchive;
pub use member::MaterializedMember;

pub use errors::TIGERShapefileError;
pub use resolve::find_file_in_zipfile_by_extension;
pub use resolve::get_shapefile_names_from_tiger_zipfile;
pub use resolve::TIGERShapefileArchiveFilenames;

pub use attributes::extract_district_name;
pub use attributes::FieldValue;
pub use attributes::RegionAttributes;
pub use matching::find_districts_for_points;
pub use matching::MatchResult;
pub use geometry::shape_contains_point;
pub use geometry::QueryPoint;
pub use geometry::Region;
pub use geometry::Ring;
