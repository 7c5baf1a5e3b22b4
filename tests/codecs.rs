use ingest_pipeline::compression::Compression;
use ingest_pipeline::engine::prepare_output;
use ingest_pipeline::error::ParseError;

fn samples() -> Vec<Vec<u8>> {
    vec![
        vec![],
        b"hello".to_vec(),
        (0..5000u32).map(|i| (i % 251) as u8).collect(),
        vec![0u8; 10000],
    ]
}

#[test]
fn every_codec_round_trips() {
    for c in [Compression::Uncompressed, Compression::Bzip2, Compression::Zstd] {
        for b in samples() {
            let enc = c.compress(&b).unwrap();
            assert_eq!(c.decompress(&enc).unwrap(), b);
        }
    }
}

#[test]
fn identity_is_a_copy_and_real_codecs_transform() {
    let b = b"some payload".to_vec();
    assert_eq!(Compression::Uncompressed.compress(&b).unwrap(), b);
    assert_eq!(Compression::Uncompressed.decompress(&b).unwrap(), b);
    let bz = Compression::Bzip2.compress(&b).unwrap();
    assert_ne!(bz, b);
    assert_eq!(&bz[0..3], b"BZh");
    let zs = Compression::Zstd.compress(&b).unwrap();
    assert_ne!(zs, b);
    assert_eq!(&zs[0..4], &[0x28, 0xb5, 0x2f, 0xfd]);
}

#[test]
fn corrupt_input_fails_to_decompress() {
    let junk = b"definitely not compressed".to_vec();
    assert_eq!(Compression::Bzip2.decompress(&junk), Err(ParseError::Decompress));
    assert_eq!(Compression::Zstd.decompress(&junk), Err(ParseError::Decompress));
}

#[test]
fn unchanged_output_reuses_original_bytes() {
    let content = b"payload".to_vec();
    let original = Compression::Zstd.compress(&content).unwrap();
    let out = prepare_output(Compression::Zstd, &original, &content, Compression::Zstd, &content);
    assert_eq!(out, original);
    let plain = prepare_output(Compression::Uncompressed, &content, &content, Compression::Uncompressed, &content);
    assert_eq!(plain, content);
}

#[test]
fn changed_output_is_encoded() {
    let content = b"payload".to_vec();
    let out = prepare_output(Compression::Uncompressed, &content, &content, Compression::Zstd, &content);
    assert_ne!(out, content);
    assert_eq!(Compression::Zstd.decompress(&out).unwrap(), content);
    let other = b"other".to_vec();
    let out2 = prepare_output(Compression::Uncompressed, &content, &content, Compression::Uncompressed, &other);
    assert_eq!(out2, other);
}
