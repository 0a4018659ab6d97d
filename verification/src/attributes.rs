//! Region attribute records and the district name lookup.
//!
//! The decoder yields, beside each region's geometry, a record mapping
//! field names to typed values.  The matcher reads exactly one field, the
//! district display name, stored under the `NAMELSAD` key of the attribute
//! table.  A missing key or a non-text value means "name unavailable": a
//! data-quality condition, never an error.

use vstd::prelude::*;

verus! {

/// One typed attribute value.  The matcher only ever distinguishes a
/// present text value from everything else, so all non-text values
/// collapse into `Other`.
#[derive(Clone, Debug)]
pub enum FieldValue {
    Character(Option<String>),
    Other,
}

/// The attribute record of one region: field name / value pairs.
#[derive(Clone, Debug)]
pub struct RegionAttributes {
    pub fields: Vec<(String, FieldValue)>,
}

/// The value stored under `key`, taking the first pair whose name matches.
pub open spec fn lookup_field(fields: Seq<(String, FieldValue)>, key: Seq<char>) -> Option<
    FieldValue,
>
    decreases fields.len(),
{
    if fields.len() == 0 {
        None
    } else if fields[0].0@ == key {
        Some(fields[0].1)
    } else {
        lookup_field(fields.drop_first(), key)
    }
}

/// The district display name of a record: the text stored under
/// `NAMELSAD`, or `None` when the field is absent or not text.
pub open spec fn district_name(attrs: RegionAttributes) -> Option<Seq<char>> {
    match lookup_field(attrs.fields@, "NAMELSAD"@) {
        Some(FieldValue::Character(Some(n))) => Some(n@),
        _ => None,
    }
}

/// Searches a region's attribute record for the name of the district.
///
/// District names sit in the `NAMELSAD` field of the attribute table; a
/// record without that field, or with a non-text value there, yields no
/// name.
pub fn extract_district_name(record: &RegionAttributes) -> (r: Option<String>)
    ensures
        r matches Some(n) ==> district_name(*record) == Some(n@),
        r is None ==> district_name(*record) is None,
{
    let key: String = "NAMELSAD".to_owned();
    let n = record.fields.len();
    let mut i: usize = 0;
    proof {
        assert(record.fields@.skip(0) =~= record.fields@);
    }
    while i < n
        invariant
            n == record.fields@.len(),
            0 <= i <= n,
            key@ == "NAMELSAD"@,
            lookup_field(record.fields@, "NAMELSAD"@) == lookup_field(
                record.fields@.skip(i as int),
                "NAMELSAD"@,
            ),
        decreases n - i,
    {
        proof {
            assert(record.fields@.skip(i as int).drop_first() =~= record.fields@.skip(
                i as int + 1,
            ));
        }
        if record.fields[i].0 == key {
            match &record.fields[i].1 {
                FieldValue::Character(Some(name)) => {
                    return Some(name.clone());
                },
                _ => {
                    return None;
                },
            }
        }
        i = i + 1;
    }
    proof {
        assert(record.fields@.skip(n as int) =~= Seq::<(String, FieldValue)>::empty());
    }
    None
}

} // verus!
