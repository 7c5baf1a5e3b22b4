use ingest_pipeline::compression::Compression;
use ingest_pipeline::error::ParseError;
use ingest_pipeline::file_type::{FileKeyword, FileType};
use ingest_pipeline::storage_key::{get_failed_path, get_parsed_path, FileData};

fn kw(f: &FileData, k: FileKeyword) -> Option<String> {
    f.kwargs.get(k).cloned()
}

#[test]
fn decodes_uncompressed_metadata_key() {
    let f = FileData::try_from("T002_M123_C45_S67.meta").unwrap();
    assert_eq!(f.file_name, "T002_M123_C45_S67");
    assert_eq!(f.file_path, "T002_M123_C45_S67.meta");
    assert_eq!(f.file_type, FileType::Metadata);
    assert_eq!(f.compression, Compression::Uncompressed);
    assert_eq!(kw(&f, FileKeyword::Type), Some("002".to_string()));
    assert_eq!(kw(&f, FileKeyword::MatchID), Some("123".to_string()));
    assert_eq!(kw(&f, FileKeyword::ClusterID), Some("45".to_string()));
    assert_eq!(kw(&f, FileKeyword::Salt), Some("67".to_string()));
}

#[test]
fn decodes_compressed_key_under_directories() {
    let f = FileData::try_from("/ingest/user-ingest/meta/T002_M9_C1_S2.meta.bz2").unwrap();
    assert_eq!(f.file_name, "T002_M9_C1_S2");
    assert_eq!(f.file_type, FileType::Metadata);
    assert_eq!(f.compression, Compression::Bzip2);
    let g = FileData::try_from("/parsed/active-matches/1700000000.amjsonl.zst").unwrap();
    assert_eq!(g.file_type, FileType::ActiveMatchesJsonLines);
    assert_eq!(g.compression, Compression::Zstd);
    assert_eq!(g.file_name, "1700000000");
}

#[test]
fn keywords_are_case_insensitive_and_unknown_codes_dropped() {
    let f = FileData::try_from("t7_m8_x9__c1_S3_s4.metac").unwrap();
    assert_eq!(kw(&f, FileKeyword::Type), Some("7".to_string()));
    assert_eq!(kw(&f, FileKeyword::MatchID), Some("8".to_string()));
    assert_eq!(kw(&f, FileKeyword::ClusterID), Some("1".to_string()));
    // A later token with the same code wins.
    assert_eq!(kw(&f, FileKeyword::Salt), Some("4".to_string()));
    let g = FileData::try_from("plain.meta").unwrap();
    assert_eq!(kw(&g, FileKeyword::Type), None);
    assert_eq!(kw(&g, FileKeyword::Salt), None);
}

#[test]
fn malformed_keys_are_rejected() {
    assert_eq!(FileData::try_from("nodots").unwrap_err(), ParseError::FilenameParse);
    assert_eq!(FileData::try_from("a.meta.bz2.x").unwrap_err(), ParseError::FilenameParse);
    assert_eq!(FileData::try_from("").unwrap_err(), ParseError::FilenameParse);
    assert_eq!(FileData::try_from("/ingest/").unwrap_err(), ParseError::FilenameParse);
    assert_eq!(FileData::try_from("a.demo").unwrap_err(), ParseError::UnknownVariant);
    assert_eq!(FileData::try_from("a.meta.gz").unwrap_err(), ParseError::UnknownVariant);
    assert_eq!(FileData::try_from("a.meta.").unwrap_err(), ParseError::UnknownVariant);
    assert_eq!(FileData::try_from("a.bz2.meta").unwrap_err(), ParseError::UnknownVariant);
}

#[test]
fn stage_paths_omit_identity_segment() {
    assert_eq!(
        get_parsed_path("T002_M123_C45_S67", FileType::MetadataContent, Compression::Zstd),
        "/parsed/metac/T002_M123_C45_S67.metac.zst"
    );
    assert_eq!(
        get_parsed_path("T002_M123_C45_S67", FileType::MetadataContent, Compression::Uncompressed),
        "/parsed/metac/T002_M123_C45_S67.metac"
    );
    assert_eq!(
        get_failed_path("x", FileType::Metadata, Compression::Bzip2),
        "/failed/meta/x.meta.bz2"
    );
    assert_eq!(
        get_parsed_path("1700", FileType::ActiveMatchesJsonLines, Compression::Zstd),
        "/parsed/active-matches/1700.amjsonl.zst"
    );
}

#[test]
fn key_round_trip_keeps_parts() {
    for key in [
        "T002_M123_C45_S67.meta",
        "/ingest/a/T002_M1_C2_S3.meta.bz2",
        "/x/T1_M2.metac.zst",
        "17.amjsonl",
    ] {
        let f = FileData::try_from(key).unwrap();
        for path in [
            get_parsed_path(&f.file_name, f.file_type, f.compression),
            get_failed_path(&f.file_name, f.file_type, f.compression),
        ] {
            let g = FileData::try_from(&path).unwrap();
            assert_eq!(g.file_name, f.file_name);
            assert_eq!(g.file_type, f.file_type);
            assert_eq!(g.compression, f.compression);
            for k in [FileKeyword::Type, FileKeyword::MatchID, FileKeyword::ClusterID, FileKeyword::Salt] {
                assert_eq!(kw(&g, k), kw(&f, k));
            }
            if f.compression == Compression::Uncompressed {
                assert_eq!(path.matches('.').count(), 1);
            }
        }
    }
}

#[test]
fn type_and_codec_tags() {
    assert_eq!(FileType::Metadata.extension(), "meta");
    assert_eq!(FileType::MetadataContent.extension(), "metac");
    assert_eq!(FileType::ActiveMatchesJsonLines.extension(), "amjsonl");
    assert_eq!(FileType::ActiveMatchesJsonLines.dir_name(), "active-matches");
    assert_eq!(FileType::from_extension("metac"), Ok(FileType::MetadataContent));
    assert_eq!(FileType::from_extension("Meta"), Err(ParseError::UnknownVariant));
    assert_eq!(Compression::Uncompressed.suffix(), "");
    assert_eq!(Compression::Bzip2.suffix(), "bz2");
    assert_eq!(Compression::Zstd.suffix(), "zst");
    assert_eq!(Compression::from_suffix("zst"), Ok(Compression::Zstd));
    assert_eq!(Compression::from_suffix(""), Err(ParseError::UnknownVariant));
    assert_eq!(FileKeyword::from_code('M'), Some(FileKeyword::MatchID));
    assert_eq!(FileKeyword::from_code('x'), None);
}
