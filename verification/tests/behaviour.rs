use parquet_compression::{
    create_codec, BrotliLevel, Codec, CodecOptions, CodecOptionsBuilder, Compression, ExternalError,
    GzipLevel, HadoopFrameError, LZ4Codec, LZ4HadoopCodec, LZ4RawCodec, ParquetError, SnappyCodec,
    ZstdLevel,
};

fn general_message(e: ParquetError) -> String {
    match e {
        ParquetError::General(m) => m,
        other => panic!("expected a general error, got {:?}", other),
    }
}

fn hadoop_error(r: Result<usize, ParquetError>) -> HadoopFrameError {
    match r {
        Err(ParquetError::External(ExternalError::Hadoop(e))) => e,
        other => panic!("expected a Hadoop frame error, got {:?}", other),
    }
}

fn strict_options() -> CodecOptions {
    CodecOptionsBuilder::default().set_backward_compatible_lz4(false).build()
}

fn be(v: u32) -> [u8; 4] {
    v.to_be_bytes()
}

/// One Hadoop frame around the LZ4 block of `data`.
fn hadoop_frame(data: &[u8]) -> Vec<u8> {
    let block = lz4_flex::block::compress(data);
    let mut frame = Vec::new();
    frame.extend_from_slice(&be(data.len() as u32));
    frame.extend_from_slice(&be(block.len() as u32));
    frame.extend_from_slice(&block);
    frame
}

fn all_kinds() -> Vec<Compression> {
    vec![
        Compression::SNAPPY,
        Compression::GZIP(GzipLevel::default()),
        Compression::BROTLI(BrotliLevel::default()),
        Compression::LZ4,
        Compression::ZSTD(ZstdLevel::default()),
        Compression::LZ4_RAW,
    ]
}

#[test]
fn gzip_level_bounds() {
    assert_eq!(GzipLevel::try_new(0).unwrap().compression_level(), 0);
    assert_eq!(GzipLevel::try_new(9).unwrap().compression_level(), 9);
    assert_eq!(GzipLevel::try_new(10).unwrap().compression_level(), 10);
    let e = GzipLevel::try_new(11).unwrap_err();
    assert_eq!(general_message(e), "valid compression range 0..=10 exceeded.");
}

#[test]
fn brotli_level_bounds() {
    assert_eq!(BrotliLevel::try_new(11).unwrap().compression_level(), 11);
    let e = BrotliLevel::try_new(12).unwrap_err();
    assert_eq!(general_message(e), "valid compression range 0..=11 exceeded.");
}

#[test]
fn zstd_level_bounds() {
    assert_eq!(ZstdLevel::try_new(1).unwrap().compression_level(), 1);
    assert_eq!(ZstdLevel::try_new(22).unwrap().compression_level(), 22);
    assert_eq!(general_message(ZstdLevel::try_new(0).unwrap_err()), "valid compression range 1..=22 exceeded.");
    assert_eq!(general_message(ZstdLevel::try_new(23).unwrap_err()), "valid compression range 1..=22 exceeded.");
    assert_eq!(general_message(ZstdLevel::try_new(-5).unwrap_err()), "valid compression range 1..=22 exceeded.");
}

#[test]
fn default_levels() {
    assert_eq!(GzipLevel::default().compression_level(), 6);
    assert_eq!(BrotliLevel::default().compression_level(), 1);
    assert_eq!(ZstdLevel::default().compression_level(), 1);
    assert_eq!(GzipLevel::try_new(6).unwrap(), GzipLevel::default());
    assert_eq!(BrotliLevel::try_new(1).unwrap(), BrotliLevel::default());
    assert_eq!(ZstdLevel::try_new(1).unwrap(), ZstdLevel::default());
}

#[test]
fn options_builder() {
    assert_eq!(CodecOptions::default(), CodecOptionsBuilder::default().build());
    assert_eq!(
        CodecOptions::default(),
        CodecOptionsBuilder::default().set_backward_compatible_lz4(true).build()
    );
    assert_ne!(CodecOptions::default(), strict_options());
    assert_eq!(
        strict_options(),
        CodecOptionsBuilder::default()
            .set_backward_compatible_lz4(true)
            .set_backward_compatible_lz4(false)
            .build()
    );
}

#[test]
fn create_codec_uncompressed_and_lzo() {
    let options = CodecOptions::default();
    assert!(create_codec(Compression::UNCOMPRESSED, &options).unwrap().is_none());
    match create_codec(Compression::LZO, &options) {
        Err(ParquetError::NYI(m)) => assert_eq!(m, "The codec type LZO is not supported yet"),
        _ => panic!("LZO must not be supported"),
    }
    for kind in all_kinds() {
        assert!(create_codec(kind, &options).unwrap().is_some());
    }
}

#[test]
fn empty_input_roundtrips() {
    let options = strict_options();
    for kind in all_kinds() {
        let mut codec = create_codec(kind, &options).unwrap().unwrap();
        let mut compressed = Vec::new();
        codec.compress(&[], &mut compressed).unwrap();
        let mut out = Vec::new();
        assert_eq!(codec.decompress(&compressed, &mut out, Some(0)).unwrap(), 0);
        assert!(out.is_empty());
    }
}

#[test]
fn compressible_data_shrinks() {
    let options = strict_options();
    let data = vec![7u8; 10000];
    for kind in all_kinds() {
        let mut codec = create_codec(kind, &options).unwrap().unwrap();
        let mut compressed = Vec::new();
        codec.compress(&data, &mut compressed).unwrap();
        assert!(compressed.len() < data.len() / 10, "{:?}", kind);
        let mut out = Vec::new();
        assert_eq!(codec.decompress(&compressed, &mut out, Some(data.len())).unwrap(), data.len());
        assert_eq!(out, data);
    }
}

#[test]
fn lz4_raw_needs_exact_size() {
    let data = b"hello hello hello hello parquet".to_vec();
    let mut codec = LZ4RawCodec::new();
    let mut compressed = Vec::new();
    codec.compress(&data, &mut compressed).unwrap();
    assert_eq!(compressed, lz4_flex::block::compress(&data));

    let mut out = vec![1u8, 2];
    let e = codec.decompress(&compressed, &mut out, None).unwrap_err();
    assert_eq!(general_message(e), "LZ4RawCodec unsupported without uncompress_size");
    assert_eq!(out, vec![1u8, 2]);

    let mut out = Vec::new();
    let e = codec.decompress(&compressed, &mut out, Some(data.len() + 5)).unwrap_err();
    assert_eq!(general_message(e), "LZ4RawCodec uncompress_size is not the expected one");

    let mut out = Vec::new();
    match codec.decompress(&compressed, &mut out, Some(data.len() - 1)) {
        Err(ParquetError::External(ExternalError::Lz4Decompress(_))) => {}
        other => panic!("expected an LZ4 error, got {:?}", other),
    }
}

#[test]
fn hadoop_frame_layout() {
    let data: Vec<u8> = (0..3000u32).map(|i| (i % 251) as u8).collect();
    let mut codec = LZ4HadoopCodec::new(false);
    let mut out = vec![9u8];
    codec.compress(&data, &mut out).unwrap();
    assert_eq!(out[0], 9);
    let block = lz4_flex::block::compress(&data);
    assert_eq!(&out[1..5], &be(3000));
    assert_eq!(&out[5..9], &be(block.len() as u32));
    assert_eq!(&out[9..], &block[..]);
    assert_eq!(out[1..].to_vec(), hadoop_frame(&data));
}

#[test]
fn hadoop_needs_size() {
    let mut codec = LZ4HadoopCodec::new(false);
    let frame = hadoop_frame(b"abcdefgh");
    let mut out = Vec::new();
    let e = codec.decompress(&frame, &mut out, None).unwrap_err();
    assert_eq!(general_message(e), "LZ4HadoopCodec unsupported without uncompress_size");
    let mut out = Vec::new();
    let e = codec.decompress(&frame, &mut out, Some(20)).unwrap_err();
    assert_eq!(general_message(e), "LZ4HadoopCodec uncompress_size is not the expected one");
}

#[test]
fn hadoop_two_frames() {
    let a = b"first frame".to_vec();
    let b: Vec<u8> = (0..500u32).map(|i| (i * 7 % 256) as u8).collect();
    let mut input = hadoop_frame(&a);
    input.extend_from_slice(&hadoop_frame(&b));
    let mut codec = LZ4HadoopCodec::new(false);
    let mut out = Vec::new();
    let n = codec.decompress(&input, &mut out, Some(a.len() + b.len())).unwrap();
    assert_eq!(n, a.len() + b.len());
    let mut expected = a.clone();
    expected.extend_from_slice(&b);
    assert_eq!(out, expected);
}

#[test]
fn hadoop_second_frame_read_only_when_longer() {
    // After a first frame, a next one is read only where the bytes that remain
    // outnumber the first frame's compressed bytes.
    let a: Vec<u8> = (0..500u32).map(|i| (i * 7 % 256) as u8).collect();
    let b = b"x".to_vec();
    let mut input = hadoop_frame(&a);
    input.extend_from_slice(&hadoop_frame(&b));
    let mut codec = LZ4HadoopCodec::new(false);
    let mut out = Vec::new();
    let e = hadoop_error(codec.decompress(&input, &mut out, Some(a.len() + b.len())));
    assert!(matches!(e, HadoopFrameError::UnconsumedInput));
}

#[test]
fn hadoop_frame_errors() {
    let mut codec = LZ4HadoopCodec::new(false);

    // A frame announcing more compressed bytes than there are.
    let mut input = Vec::new();
    input.extend_from_slice(&be(4));
    input.extend_from_slice(&be(100));
    input.extend_from_slice(&[0u8; 10]);
    let e = hadoop_error(codec.decompress(&input, &mut Vec::new(), Some(4)));
    assert!(matches!(e, HadoopFrameError::NotEnoughInput));
    assert_eq!(e.message(), Some("Not enough bytes for Hadoop frame"));

    // A frame announcing more decompressed bytes than the size hint.
    let frame = hadoop_frame(b"0123456789");
    let e = hadoop_error(codec.decompress(&frame, &mut Vec::new(), Some(5)));
    assert!(matches!(e, HadoopFrameError::NotEnoughOutput));
    assert_eq!(e.message(), Some("Not enough bytes to hold advertised output"));

    // A frame whose block decompresses to another size than announced.
    let data = b"0123456789".to_vec();
    let block = lz4_flex::block::compress(&data);
    let mut input = Vec::new();
    input.extend_from_slice(&be(9));
    input.extend_from_slice(&be(block.len() as u32));
    input.extend_from_slice(&block);
    let e = hadoop_error(codec.decompress(&input, &mut Vec::new(), Some(10)));
    assert!(matches!(e, HadoopFrameError::UnexpectedDecompressedSize));
    assert_eq!(e.message(), Some("Unexpected decompressed size"));

    // A frame whose block is not LZ4.
    let mut input = Vec::new();
    input.extend_from_slice(&be(10));
    input.extend_from_slice(&be(2));
    input.extend_from_slice(&[0xF0, 0x00]);
    let e = hadoop_error(codec.decompress(&input, &mut Vec::new(), Some(10)));
    assert!(matches!(e, HadoopFrameError::Decompress(_)));
    assert_eq!(e.message(), None);

    // Fewer bytes than a header.
    let e = hadoop_error(codec.decompress(&[1, 2, 3], &mut Vec::new(), Some(10)));
    assert!(matches!(e, HadoopFrameError::UnconsumedInput));
    assert_eq!(e.message(), Some("Not all input are consumed"));

    // Bytes left after the last frame.
    let mut input = hadoop_frame(b"0123456789");
    input.push(0);
    let e = hadoop_error(codec.decompress(&input, &mut Vec::new(), Some(10)));
    assert!(matches!(e, HadoopFrameError::UnconsumedInput));
}

#[test]
fn hadoop_falls_back_to_lz4_frame() {
    let data: Vec<u8> = (0..20000u32).map(|i| (i % 97) as u8).collect();
    let mut frame_codec = LZ4Codec::new();
    let mut compressed = Vec::new();
    frame_codec.compress(&data, &mut compressed).unwrap();
    assert!(compressed.len() < data.len());

    let mut out = vec![5u8];
    let n = frame_codec.decompress(&compressed, &mut out, None).unwrap();
    assert_eq!(n, data.len());
    assert_eq!(&out[1..], &data[..]);

    let mut codec = LZ4HadoopCodec::new(true);
    let mut out = vec![5u8];
    let n = codec.decompress(&compressed, &mut out, Some(data.len())).unwrap();
    assert_eq!(n, data.len());
    assert_eq!(out[0], 5);
    assert_eq!(&out[1..], &data[..]);

    let mut strict = LZ4HadoopCodec::new(false);
    assert!(strict.decompress(&compressed, &mut Vec::new(), Some(data.len())).is_err());
}

#[test]
fn hadoop_falls_back_to_lz4_raw() {
    let data: Vec<u8> = (0..5000u32).map(|i| (i % 13) as u8).collect();
    let block = lz4_flex::block::compress(&data);
    let mut codec = LZ4HadoopCodec::new(true);
    let mut out = Vec::new();
    let n = codec.decompress(&block, &mut out, Some(data.len())).unwrap();
    assert_eq!(n, data.len());
    assert_eq!(out, data);
}

#[test]
fn snappy_oversized_hint_pads_zeros() {
    let data = b"snappy snappy snappy snappy".to_vec();
    let mut codec = SnappyCodec::new();
    let mut compressed = Vec::new();
    codec.compress(&data, &mut compressed).unwrap();
    assert_eq!(compressed, snap::raw::Encoder::new().compress_vec(&data).unwrap());
    let mut out = vec![3u8];
    let n = codec.decompress(&compressed, &mut out, Some(data.len() + 10)).unwrap();
    assert_eq!(n, data.len());
    assert_eq!(out.len(), 1 + data.len() + 10);
    assert_eq!(&out[1..1 + data.len()], &data[..]);
    assert!(out[1 + data.len()..].iter().all(|b| *b == 0));

    // A hint below the declared length fails.
    let mut out = Vec::new();
    assert!(matches!(
        codec.decompress(&compressed, &mut out, Some(data.len() - 1)),
        Err(ParquetError::External(ExternalError::Snappy(_)))
    ));
}

#[test]
fn invalid_input_errors() {
    let garbage = vec![0xFFu8; 64];
    let options = strict_options();
    let mut snappy = create_codec(Compression::SNAPPY, &options).unwrap().unwrap();
    assert!(matches!(
        snappy.decompress(&garbage, &mut Vec::new(), None),
        Err(ParquetError::External(ExternalError::Snappy(_)))
    ));
    for kind in [
        Compression::GZIP(GzipLevel::default()),
        Compression::BROTLI(BrotliLevel::default()),
        Compression::ZSTD(ZstdLevel::default()),
    ] {
        let mut codec = create_codec(kind, &options).unwrap().unwrap();
        let mut out = vec![1u8, 2, 3];
        assert!(matches!(
            codec.decompress(&garbage, &mut out, None),
            Err(ParquetError::External(ExternalError::Io(_)))
        ));
        assert_eq!(&out[..3], &[1u8, 2, 3]);
    }
}

#[test]
fn gzip_output_is_gzip() {
    let data = b"gzip gzip gzip gzip gzip".to_vec();
    let mut codec = create_codec(Compression::GZIP(GzipLevel::try_new(9).unwrap()), &strict_options())
        .unwrap()
        .unwrap();
    let mut compressed = Vec::new();
    codec.compress(&data, &mut compressed).unwrap();
    // The gzip magic number.
    assert_eq!(&compressed[..2], &[0x1f, 0x8b]);
    let mut out = Vec::new();
    assert_eq!(codec.decompress(&compressed, &mut out, None).unwrap(), data.len());
    assert_eq!(out, data);
}

#[test]
fn zstd_output_is_zstd() {
    let data = b"zstd zstd zstd zstd zstd".to_vec();
    let mut codec = create_codec(Compression::ZSTD(ZstdLevel::try_new(3).unwrap()), &strict_options())
        .unwrap()
        .unwrap();
    let mut compressed = Vec::new();
    codec.compress(&data, &mut compressed).unwrap();
    // The Zstandard magic number.
    assert_eq!(&compressed[..4], &[0x28, 0xb5, 0x2f, 0xfd]);
    assert_eq!(zstd::stream::decode_all(&compressed[..]).unwrap(), data);
}

#[test]
fn brotli_output_decodes_with_brotli() {
    let data = b"brotli brotli brotli brotli".to_vec();
    let mut codec = create_codec(Compression::BROTLI(BrotliLevel::try_new(5).unwrap()), &strict_options())
        .unwrap()
        .unwrap();
    let mut compressed = Vec::new();
    codec.compress(&data, &mut compressed).unwrap();
    assert_ne!(compressed, data);
    let mut out = Vec::new();
    std::io::Read::read_to_end(&mut brotli::Decompressor::new(&compressed[..], 4096), &mut out).unwrap();
    assert_eq!(out, data);
}

#[test]
fn lz4_frame_chunk_edges() {
    for len in [0usize, 4095, 4096, 4097, 8192] {
        let data: Vec<u8> = (0..len).map(|i| (i % 251) as u8).collect();
        let mut codec = LZ4Codec::new();
        let mut compressed = vec![9u8, 9];
        codec.compress(&data, &mut compressed).unwrap();
        assert_eq!(&compressed[..2], &[9u8, 9]);
        let mut out = vec![1u8];
        assert_eq!(codec.decompress(&compressed[2..], &mut out, Some(3)).unwrap(), len);
        assert_eq!(out[0], 1);
        assert_eq!(&out[1..], &data[..]);
    }
    let mut codec = LZ4Codec::new();
    let r = codec.decompress(&[1, 2, 3], &mut Vec::new(), None);
    assert!(matches!(r, Err(ParquetError::External(ExternalError::Io(_)))));
}

#[test]
fn hadoop_fallback_reports_raw_error() {
    let mut codec = LZ4HadoopCodec::new(true);
    let mut out = vec![4u8];
    let r = codec.decompress(&[0xff, 0xff, 0xff], &mut out, Some(10));
    assert!(matches!(r, Err(ParquetError::External(ExternalError::Lz4Decompress(_)))));
    assert_eq!(out[0], 4);
}
