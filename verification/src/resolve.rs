//! Resolving the required members of a TIGER shapefile archive.
//!
//! There are three files we need from the zipped TIGER shapefile:
//! * `.shp` - the feature geometry
//! * `.shx` - the index of the feature geometry
//! * `.dbf` - the tabular attribute information
//!
//! Each role must be filled by exactly one member: an archive with none is
//! rejected with [`TIGERShapefileError::MissingFile`], one with several is
//! rejected with [`TIGERShapefileError::TooManyFiles`] rather than
//! guessing which duplicate is authoritative.

use vstd::prelude::*;

use crate::errors::TIGERShapefileError;
use crate::extension::has_extension;
use crate::extension::name_has_extension;

verus! {

/// The member names carrying extension `ext`, in listing order.
pub open spec fn matching_names(names: Seq<Seq<char>>, ext: Seq<char>) -> Seq<Seq<char>>
    decreases names.len(),
{
    if names.len() == 0 {
        Seq::empty()
    } else {
        let rest = matching_names(names.drop_last(), ext);
        if has_extension(names.last(), ext) {
            rest.push(names.last())
        } else {
            rest
        }
    }
}

/// The listing holds exactly one member for each of the three roles.
pub open spec fn resolves_uniquely(list: Seq<Seq<char>>) -> bool {
    &&& matching_names(list, "shp"@).len() == 1
    &&& matching_names(list, "dbf"@).len() == 1
    &&& matching_names(list, "shx"@).len() == 1
}

/// The name filling the role with extension `ext` (meaningful when the
/// listing has exactly one member with that extension).
pub open spec fn role_name(list: Seq<Seq<char>>, ext: Seq<char>) -> Seq<char> {
    matching_names(list, ext)[0]
}

/// Stores the filenames of relevant data within a TIGER shapefile archive.
#[derive(Clone, Debug)]
pub struct TIGERShapefileArchiveFilenames {
    pub shp_filename: String,
    pub dbf_filename: String,
    pub shx_filename: String,
}

/// The listing has exactly one member per required role, and the manifest
/// names those three members.
pub open spec fn resolved_manifest(
    list: Seq<Seq<char>>,
    m: TIGERShapefileArchiveFilenames,
) -> bool {
    &&& matching_names(list, "shp"@) == seq![m.shp_filename@]
    &&& matching_names(list, "dbf"@) == seq![m.dbf_filename@]
    &&& matching_names(list, "shx"@) == seq![m.shx_filename@]
}

/// The exact circumstances under which manifest construction fails: a
/// role with no candidate yields `MissingFile`, one with several yields
/// `TooManyFiles`, checked in the order shp, dbf, shx (fail-fast).
pub open spec fn resolution_failure(list: Seq<Seq<char>>, e: TIGERShapefileError) -> bool {
    ||| (e matches TIGERShapefileError::MissingFile { extension: x } && ((x@ == "shp"@
        && matching_names(list, "shp"@).len() == 0) || (x@ == "dbf"@ && matching_names(
        list,
        "shp"@,
    ).len() == 1 && matching_names(list, "dbf"@).len() == 0) || (x@ == "shx"@ && matching_names(
        list,
        "shp"@,
    ).len() == 1 && matching_names(list, "dbf"@).len() == 1 && matching_names(
        list,
        "shx"@,
    ).len() == 0)))
    ||| (e matches TIGERShapefileError::TooManyFiles { extension: x } && ((x@ == "shp"@
        && matching_names(list, "shp"@).len() > 1) || (x@ == "dbf"@ && matching_names(
        list,
        "shp"@,
    ).len() == 1 && matching_names(list, "dbf"@).len() > 1) || (x@ == "shx"@ && matching_names(
        list,
        "shp"@,
    ).len() == 1 && matching_names(list, "dbf"@).len() == 1 && matching_names(
        list,
        "shx"@,
    ).len() > 1)))
}

/// Finds the member name carrying extension `extension`, if any.
///
/// Returns `Ok(None)` when no member matches, the unique match when one
/// does, and `TooManyFiles` when several do.
pub fn find_file_in_zipfile_by_extension(names: &Vec<String>, extension: &str) -> (r: Result<
    Option<String>,
    TIGERShapefileError,
>)
    ensures
        match r {
            Ok(Some(name)) => matching_names(names.deep_view(), extension@) == seq![name@],
            Ok(None) => matching_names(names.deep_view(), extension@).len() == 0,
            Err(e) => matching_names(names.deep_view(), extension@).len() > 1 && (e matches
            TIGERShapefileError::TooManyFiles { extension: x } && x@ == extension@),
        },
{
    let n = names.len();
    let mut matched: Vec<String> = Vec::new();
    let mut i: usize = 0;
    while i < n
        invariant
            n == names@.len(),
            0 <= i <= n,
            matched.deep_view() == matching_names(names.deep_view().take(i as int), extension@),
        decreases n - i,
    {
        proof {
            assert(names.deep_view().take(i as int + 1).drop_last() =~= names.deep_view().take(
                i as int,
            ));
            assert(names.deep_view().take(i as int + 1).last() == names.deep_view()[i as int]);
        }
        if name_has_extension(names[i].as_str(), extension) {
            matched.push(names[i].clone());
            assert(matched.deep_view() =~= matching_names(
                names.deep_view().take(i as int + 1),
                extension@,
            ));
        }
        i = i + 1;
    }
    proof {
        assert(names.deep_view().take(n as int) =~= names.deep_view());
    }
    if matched.len() > 1 {
        Err(TIGERShapefileError::TooManyFiles { extension: extension.to_owned() })
    } else {
        match matched.pop() {
            Some(name) => {
                assert(matching_names(names.deep_view(), extension@) =~= seq![name@]);
                Ok(Some(name))
            },
            None => Ok(None),
        }
    }
}

/// Searches in the zipped TIGER shapefile's member listing for the
/// relevant files by extension, requiring exactly one of each.
pub fn get_shapefile_names_from_tiger_zipfile(names: &Vec<String>) -> (r: Result<
    TIGERShapefileArchiveFilenames,
    TIGERShapefileError,
>)
    ensures
        match r {
            Ok(m) => resolved_manifest(names.deep_view(), m),
            Err(e) => resolution_failure(names.deep_view(), e),
        },
{
    let shp = match find_file_in_zipfile_by_extension(names, "shp") {
        Err(e) => {
            return Err(e);
        },
        Ok(None) => {
            return Err(TIGERShapefileError::MissingFile { extension: "shp".to_owned() });
        },
        Ok(Some(name)) => name,
    };
    let dbf = match find_file_in_zipfile_by_extension(names, "dbf") {
        Err(e) => {
            return Err(e);
        },
        Ok(None) => {
            return Err(TIGERShapefileError::MissingFile { extension: "dbf".to_owned() });
        },
        Ok(Some(name)) => name,
    };
    let shx = match find_file_in_zipfile_by_extension(names, "shx") {
        Err(e) => {
            return Err(e);
        },
        Ok(None) => {
            return Err(TIGERShapefileError::MissingFile { extension: "shx".to_owned() });
        },
        Ok(Some(name)) => name,
    };
    Ok(TIGERShapefileArchiveFilenames { shp_filename: shp, dbf_filename: dbf, shx_filename: shx })
}

} // verus!
