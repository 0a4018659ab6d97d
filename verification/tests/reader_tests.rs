//! End-to-end test: a real shapefile trio, zipped in memory, resolved and
//! decoded through the library, then matched against query points.

use std::io::Cursor;
use std::io::Write;

use civicsearch::extract_district_name;
use civicsearch::shape_contains_point;
use civicsearch::shapefile_reader_from_zip_archive;
use civicsearch::FieldValue;
use civicsearch::QueryPoint;
use civicsearch::Region;
use civicsearch::RegionAttributes;
use civicsearch::Ring;
use civicsearch::TIGERShapefileError;

/// Fixed-point scale used when converting the decoder's f64 coordinates.
const SCALE: f64 = 10_000_000.0;

fn write_district_shapefile() -> (Vec<u8>, Vec<u8>, Vec<u8>) {
    let mut shp_buf = Cursor::new(Vec::new());
    let mut shx_buf = Cursor::new(Vec::new());
    let mut dbf_buf = Cursor::new(Vec::new());
    {
        let shape_writer = shapefile::ShapeWriter::with_shx(&mut shp_buf, &mut shx_buf);
        let table_writer = shapefile::dbase::TableWriterBuilder::new()
            .add_character_field("NAMELSAD".try_into().unwrap(), 50)
            .build_with_dest(&mut dbf_buf);
        let mut writer = shapefile::Writer::new(shape_writer, table_writer);
        let polygon = shapefile::Polygon::new(shapefile::PolygonRing::Outer(vec![
            shapefile::Point::new(-1.1, -1.01),
            shapefile::Point::new(-1.2, 1.02),
            shapefile::Point::new(1.3, 1.03),
            shapefile::Point::new(1.4, -1.04),
        ]));
        let mut record = shapefile::dbase::Record::default();
        record.insert(
            "NAMELSAD".to_string(),
            shapefile::dbase::FieldValue::Character(Some("1st District".to_string())),
        );
        writer.write_shape_and_record(&polygon, &record).unwrap();
    }
    (shp_buf.into_inner(), shx_buf.into_inner(), dbf_buf.into_inner())
}

fn zip_entries(entries: &[(&str, &[u8])]) -> zip::ZipArchive<Cursor<Vec<u8>>> {
    let mut writer = zip::ZipWriter::new(Cursor::new(Vec::new()));
    for (name, bytes) in entries {
        writer
            .start_file(*name, zip::write::SimpleFileOptions::default())
            .unwrap();
        writer.write_all(bytes).unwrap();
    }
    let cursor = writer.finish().unwrap();
    zip::ZipArchive::new(cursor).unwrap()
}

fn to_region(polygon: &shapefile::Polygon) -> Region {
    let mut rings = Vec::new();
    for ring in polygon.rings() {
        let (is_hole, points) = match ring {
            shapefile::PolygonRing::Outer(points) => (false, points),
            shapefile::PolygonRing::Inner(points) => (true, points),
        };
        let vertices = points
            .iter()
            .map(|p| QueryPoint { x: (p.x * SCALE) as i64, y: (p.y * SCALE) as i64 })
            .collect();
        rings.push(Ring { is_hole, vertices });
    }
    Region { rings }
}

fn to_attributes(record: shapefile::dbase::Record) -> RegionAttributes {
    let mut fields = Vec::new();
    for (name, value) in record.into_iter() {
        let converted = match value {
            shapefile::dbase::FieldValue::Character(text) => FieldValue::Character(text),
            _ => FieldValue::Other,
        };
        fields.push((name, converted));
    }
    RegionAttributes { fields }
}

#[test]
fn zipped_shapefile_decodes_and_matches() {
    let (shp, shx, dbf) = write_district_shapefile();
    let archive = zip_entries(&[
        ("district.shp", &shp),
        ("district.shx", &shx),
        ("district.dbf", &dbf),
        ("district.prj", b"GEOGCS"),
    ]);
    let mut reader = shapefile_reader_from_zip_archive(archive).unwrap();
    let pairs: Vec<(shapefile::Polygon, shapefile::dbase::Record)> = reader
        .inner
        .iter_shapes_and_records_as::<shapefile::Polygon, shapefile::dbase::Record>()
        .map(|r| r.unwrap())
        .collect();
    assert_eq!(pairs.len(), 1);

    let region = to_region(&pairs[0].0);
    let attrs = to_attributes(pairs[0].1.clone());
    assert_eq!(extract_district_name(&attrs), Some("1st District".to_string()));

    let inside = QueryPoint { x: 0, y: 0 };
    let outside = QueryPoint { x: (2.0 * SCALE) as i64, y: 0 };
    assert!(shape_contains_point(&region, &inside));
    assert!(!shape_contains_point(&region, &outside));
}

#[test]
fn zipped_shapefile_missing_index_is_rejected() {
    let (shp, _shx, dbf) = write_district_shapefile();
    let archive = zip_entries(&[("district.shp", &shp), ("district.dbf", &dbf)]);
    match shapefile_reader_from_zip_archive(archive) {
        Err(TIGERShapefileError::MissingFile { extension }) => assert_eq!(extension, "shx"),
        other => panic!("expected MissingFile, got {:?}", other.map(|_| ())),
    }
}

#[test]
fn garbage_members_are_rejected_by_the_decoder() {
    let archive = zip_entries(&[
        ("a.shp", b"not a shapefile"),
        ("a.dbf", b"not a dbf"),
        ("a.shx", b"not an index"),
    ]);
    match shapefile_reader_from_zip_archive(archive) {
        Err(TIGERShapefileError::InvalidShapefile(_)) => {},
        Err(other) => panic!("expected InvalidShapefile, got {:?}", other),
        Ok(_) => panic!("expected an error"),
    }
}
