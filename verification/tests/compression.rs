use parquet_compression::{
    create_codec, BrotliLevel, Codec, CodecOptions, CodecOptionsBuilder, Compression as CodecType,
    GzipLevel, ZstdLevel,
};

/// Deterministic pseudo-random bytes over the whole byte range (xorshift),
/// seeded by the length.
fn random_bytes(n: usize) -> Vec<u8> {
    let mut state: u64 = 0x9E37_79B9_7F4A_7C15 ^ (n as u64);
    let mut out = Vec::with_capacity(n);
    for _ in 0..n {
        state ^= state << 13;
        state ^= state >> 7;
        state ^= state << 17;
        out.push((state >> 32) as u8);
    }
    out
}

fn test_roundtrip(c: CodecType, data: &[u8], uncompress_size: Option<usize>) {
    let codec_options = CodecOptionsBuilder::default()
        .set_backward_compatible_lz4(false)
        .build();
    let mut c1 = create_codec(c, &codec_options).unwrap().unwrap();
    let mut c2 = create_codec(c, &codec_options).unwrap().unwrap();

    // Compress with c1
    let mut compressed = Vec::new();
    let mut decompressed = Vec::new();
    c1.compress(data, &mut compressed)
        .expect("Error when compressing");

    // Decompress with c2
    let decompressed_size = c2
        .decompress(compressed.as_slice(), &mut decompressed, uncompress_size)
        .expect("Error when decompressing");
    assert_eq!(data.len(), decompressed_size);
    assert_eq!(data, decompressed.as_slice());

    decompressed.clear();
    compressed.clear();

    // Compress with c2
    c2.compress(data, &mut compressed)
        .expect("Error when compressing");

    // Decompress with c1
    let decompressed_size = c1
        .decompress(compressed.as_slice(), &mut decompressed, uncompress_size)
        .expect("Error when decompressing");
    assert_eq!(data.len(), decompressed_size);
    assert_eq!(data, decompressed.as_slice());

    decompressed.clear();
    compressed.clear();

    // Test does not trample existing data in output buffers
    let prefix = &[0xDE, 0xAD, 0xBE, 0xEF];
    decompressed.extend_from_slice(prefix);
    compressed.extend_from_slice(prefix);

    c2.compress(data, &mut compressed)
        .expect("Error when compressing");

    assert_eq!(&compressed[..4], prefix);

    let decompressed_size = c2
        .decompress(&compressed[4..], &mut decompressed, uncompress_size)
        .expect("Error when decompressing");

    assert_eq!(data.len(), decompressed_size);
    assert_eq!(data, &decompressed[4..]);
    assert_eq!(&decompressed[..4], prefix);
}

fn test_codec_with_size(c: CodecType) {
    let sizes = vec![100, 10000, 100000];
    for size in sizes {
        let data = random_bytes(size);
        test_roundtrip(c, &data, Some(data.len()));
    }
}

fn test_codec_without_size(c: CodecType) {
    let sizes = vec![100, 10000, 100000];
    for size in sizes {
        let data = random_bytes(size);
        test_roundtrip(c, &data, None);
    }
}

#[test]
fn test_codec_snappy() {
    test_codec_with_size(CodecType::SNAPPY);
    test_codec_without_size(CodecType::SNAPPY);
}

#[test]
fn test_codec_gzip() {
    for level in GzipLevel::MINIMUM_LEVEL..=GzipLevel::MAXIMUM_LEVEL {
        let level = GzipLevel::try_new(level).unwrap();
        test_codec_with_size(CodecType::GZIP(level));
        test_codec_without_size(CodecType::GZIP(level));
    }
}

#[test]
fn test_codec_brotli() {
    for level in BrotliLevel::MINIMUM_LEVEL..=BrotliLevel::MAXIMUM_LEVEL {
        let level = BrotliLevel::try_new(level).unwrap();
        test_codec_with_size(CodecType::BROTLI(level));
        test_codec_without_size(CodecType::BROTLI(level));
    }
}

#[test]
fn test_codec_lz4() {
    test_codec_with_size(CodecType::LZ4);
}

#[test]
fn test_codec_zstd() {
    for level in ZstdLevel::MINIMUM_LEVEL..=ZstdLevel::MAXIMUM_LEVEL {
        let level = ZstdLevel::try_new(level).unwrap();
        test_codec_with_size(CodecType::ZSTD(level));
        test_codec_without_size(CodecType::ZSTD(level));
    }
}

#[test]
fn test_codec_lz4_raw() {
    test_codec_with_size(CodecType::LZ4_RAW);
}

#[test]
fn default_options_are_backward_compatible() {
    // A default LZ4 codec falls back to LZ4_RAW on input that is not Hadoop framed.
    let options = CodecOptions::default();
    let data = random_bytes(1000);
    let mut raw = create_codec(CodecType::LZ4_RAW, &options).unwrap().unwrap();
    let mut compressed = Vec::new();
    raw.compress(&data, &mut compressed).unwrap();
    let mut hadoop = create_codec(CodecType::LZ4, &options).unwrap().unwrap();
    let mut out = Vec::new();
    let n = hadoop.decompress(&compressed, &mut out, Some(data.len())).unwrap();
    assert_eq!(n, data.len());
    assert_eq!(out, data);
}
