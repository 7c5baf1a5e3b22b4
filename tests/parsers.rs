use ingest_pipeline::compression::Compression;
use ingest_pipeline::error::ParseError;
use ingest_pipeline::file_type::FileType;
use ingest_pipeline::parsers::{
    batch_lines, flatten_batches, ActiveMatchesJsonLinesParser, ContentsDecode, EnvelopeDecode,
    MetaDataContentParser, MetaDataParser,
};
use ingest_pipeline::storage_key::FileData;

#[test]
fn metadata_parser_migrates_to_contents() {
    let f = FileData::try_from("T002_M1_C2_S3.meta.bz2").unwrap();
    let decoded = EnvelopeDecode::Decoded {
        match_details: vec![1, 2, 3],
        contents: ContentsDecode::MatchInfo(42u32),
    };
    let r = MetaDataParser.parse(&f, decoded).unwrap();
    assert_eq!(r.file_type, FileType::MetadataContent);
    assert_eq!(r.compression, Compression::Zstd);
    assert_eq!(r.data, vec![1, 2, 3]);
    assert_eq!(r.parsed_data, 42);
}

#[test]
fn metadata_parser_errors() {
    let f = FileData::try_from("x.meta").unwrap();
    let malformed: EnvelopeDecode<u32> = EnvelopeDecode::Malformed;
    assert_eq!(MetaDataParser.parse(&f, malformed).unwrap_err(), ParseError::ProtobufDecode);
    let bad_inner: EnvelopeDecode<u32> =
        EnvelopeDecode::Decoded { match_details: vec![9], contents: ContentsDecode::Malformed };
    assert_eq!(MetaDataParser.parse(&f, bad_inner).unwrap_err(), ParseError::ProtobufDecode);
    let missing: EnvelopeDecode<u32> =
        EnvelopeDecode::Decoded { match_details: vec![9], contents: ContentsDecode::NoMatchInfo };
    assert_eq!(MetaDataParser.parse(&f, missing).unwrap_err(), ParseError::MissingField);
}

#[test]
fn contents_parser_keeps_input_compression() {
    for (key, c) in [
        ("x.metac", Compression::Uncompressed),
        ("x.metac.bz2", Compression::Bzip2),
        ("x.metac.zst", Compression::Zstd),
    ] {
        let f = FileData::try_from(key).unwrap();
        let r = MetaDataContentParser.parse(&f, &[5, 6], ContentsDecode::MatchInfo("m")).unwrap();
        assert_eq!(r.compression, c);
        assert_eq!(r.file_type, FileType::MetadataContent);
        assert_eq!(r.data, vec![5, 6]);
        assert_eq!(r.parsed_data, "m");
    }
    let f = FileData::try_from("x.metac").unwrap();
    let missing: ContentsDecode<u8> = ContentsDecode::NoMatchInfo;
    assert_eq!(MetaDataContentParser.parse(&f, &[1], missing).unwrap_err(), ParseError::MissingField);
    let bad: ContentsDecode<u8> = ContentsDecode::Malformed;
    assert_eq!(MetaDataContentParser.parse(&f, &[1], bad).unwrap_err(), ParseError::ProtobufDecode);
}

#[test]
fn lines_split_like_str_lines() {
    assert_eq!(batch_lines(b""), Vec::<Vec<u8>>::new());
    assert_eq!(batch_lines(b"a\n"), vec![b"a".to_vec()]);
    assert_eq!(
        batch_lines(b"a\r\nb\n\nc"),
        vec![b"a".to_vec(), b"b".to_vec(), vec![], b"c".to_vec()]
    );
    assert_eq!(batch_lines(b"x\r"), vec![b"x\r".to_vec()]);
    let text = "one\ntwo\r\nthree\n";
    let expected: Vec<Vec<u8>> = text.lines().map(|l| l.as_bytes().to_vec()).collect();
    assert_eq!(batch_lines(text.as_bytes()), expected);
}

#[test]
fn corrupt_batch_line_is_dropped() {
    let data = b"[{\"match_id\":1},{\"match_id\":2}]\n[{\"match_id\":3,\n[{\"match_id\":4}]\n";
    let lines = batch_lines(data);
    assert_eq!(lines.len(), 3);
    let decoded: Vec<Option<Vec<serde_json::Value>>> = lines
        .iter()
        .map(|l| serde_json::from_str(&String::from_utf8_lossy(l)).ok())
        .collect();
    let f = FileData::try_from("1700.amjsonl.zst").unwrap();
    let r = ActiveMatchesJsonLinesParser.parse(&f, data, decoded).unwrap();
    assert_eq!(r.file_type, FileType::ActiveMatchesJsonLines);
    assert_eq!(r.compression, Compression::Zstd);
    assert_eq!(r.data, data.to_vec());
    assert_eq!(r.parsed_data.batches.len(), 2);
    assert_eq!(r.parsed_data.dropped, 1);
    assert_eq!(r.parsed_data.batches[0].len(), 2);
    assert_eq!(r.parsed_data.batches[1][0]["match_id"], 4);
    let all = flatten_batches(r.parsed_data.batches);
    let ids: Vec<u64> = all.iter().map(|v| v["match_id"].as_u64().unwrap()).collect();
    assert_eq!(ids, vec![1, 2, 4]);
}

#[test]
fn flatten_keeps_order() {
    assert_eq!(flatten_batches(vec![vec![1, 2], vec![], vec![3]]), vec![1, 2, 3]);
    assert_eq!(flatten_batches(Vec::<Vec<u8>>::new()), Vec::<u8>::new());
}
