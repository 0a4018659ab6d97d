//! Archive extraction tests against real in-memory zip archives.

use std::io::Cursor;
use std::io::Write;

use civicsearch::extract_file_in_memory;
use civicsearch::extract_shapefiles;
use civicsearch::TIGERShapefileError;

fn build_zip(entries: &[(&str, &[u8])]) -> zip::ZipArchive<Cursor<Vec<u8>>> {
    let mut writer = zip::ZipWriter::new(Cursor::new(Vec::new()));
    for (name, bytes) in entries {
        writer
            .start_file(*name, zip::write::SimpleFileOptions::default())
            .unwrap();
        writer.write_all(bytes).unwrap();
    }
    let cursor = writer.finish().unwrap();
    zip::ZipArchive::new(cursor).unwrap()
}

#[test]
fn extraction_materializes_each_member() {
    let archive = build_zip(&[
        ("tl_2019_25_sldl.shp", b"the geometry bytes"),
        ("tl_2019_25_sldl.dbf", b"the attribute bytes"),
        ("tl_2019_25_sldl.shx", b"the index bytes"),
        ("tl_2019_25_sldl.prj", b"projection"),
        ("readme.txt", b"ignored"),
    ]);
    let mut bundle = extract_shapefiles(archive).unwrap();
    assert_eq!(bundle.shape_file.read_to_end(), b"the geometry bytes".to_vec());
    assert_eq!(bundle.db_file.read_to_end(), b"the attribute bytes".to_vec());
    assert_eq!(bundle.shapeindex_file.read_to_end(), b"the index bytes".to_vec());
}

#[test]
fn extraction_round_trip_preserves_every_byte() {
    let payload: Vec<u8> = (0..=255u8).cycle().take(4096).collect();
    let archive = build_zip(&[
        ("a.shp", &payload),
        ("a.dbf", b"d"),
        ("a.shx", b"x"),
    ]);
    let mut bundle = extract_shapefiles(archive).unwrap();
    assert_eq!(bundle.shape_file.len(), payload.len());
    assert_eq!(bundle.shape_file.read_to_end(), payload);
}

#[test]
fn archive_without_dbf_is_rejected() {
    let archive = build_zip(&[("a.shp", b"s"), ("a.shx", b"x")]);
    match extract_shapefiles(archive) {
        Err(TIGERShapefileError::MissingFile { extension }) => assert_eq!(extension, "dbf"),
        other => panic!("expected MissingFile, got {:?}", other),
    }
}

#[test]
fn archive_with_two_shp_members_is_rejected() {
    let archive = build_zip(&[
        ("a.shp", b"s"),
        ("b.shp", b"s"),
        ("a.dbf", b"d"),
        ("a.shx", b"x"),
    ]);
    match extract_shapefiles(archive) {
        Err(TIGERShapefileError::TooManyFiles { extension }) => assert_eq!(extension, "shp"),
        other => panic!("expected TooManyFiles, got {:?}", other),
    }
}

#[test]
fn single_member_extraction_reads_its_bytes() {
    let mut archive = build_zip(&[("notes/readme.txt", b"hello there")]);
    let mut member = extract_file_in_memory(&mut archive, "notes/readme.txt").unwrap();
    assert_eq!(member.pos, 0);
    assert_eq!(member.read_to_end(), b"hello there".to_vec());
}

#[test]
fn corrupted_member_payload_fails_extraction() {
    // Store the members uncompressed, then flip one payload byte so the
    // checksum no longer matches.
    let mut writer = zip::ZipWriter::new(Cursor::new(Vec::new()));
    let options = zip::write::SimpleFileOptions::default()
        .compression_method(zip::CompressionMethod::Stored);
    writer.start_file("a.shp", options).unwrap();
    writer.write_all(b"the geometry bytes").unwrap();
    writer.start_file("a.dbf", options).unwrap();
    writer.write_all(b"d").unwrap();
    writer.start_file("a.shx", options).unwrap();
    writer.write_all(b"x").unwrap();
    let mut bytes = writer.finish().unwrap().into_inner();
    let payload_at = bytes
        .windows(b"the geometry bytes".len())
        .position(|w| w == b"the geometry bytes")
        .unwrap();
    bytes[payload_at] ^= 0xff;
    let archive = zip::ZipArchive::new(Cursor::new(bytes)).unwrap();
    match extract_shapefiles(archive) {
        Err(TIGERShapefileError::Io(_)) | Err(TIGERShapefileError::ZipFile(_)) => {},
        other => panic!("expected an extraction failure, got {:?}", other.map(|_| ())),
    }
}

#[test]
fn extracting_an_absent_member_fails_with_zip_error() {
    let mut archive = build_zip(&[("a.shp", b"s")]);
    match extract_file_in_memory(&mut archive, "missing.dbf") {
        Err(TIGERShapefileError::ZipFile(_)) => {},
        other => panic!("expected ZipFile error, got {:?}", other),
    }
}
