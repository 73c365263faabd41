# parquet_compression

The compression codecs of Parquet pages, verified with Verus: Snappy, gzip,
brotli, Zstandard, LZ4 raw blocks, LZ4 frames and the Hadoop LZ4 framing
that Parquet calls `LZ4`.

Layout of `src/`:

- `codec.rs`: the `Codec` interface, `AnyCodec` and `create_codec`.
- `*_codec.rs`: one codec each. `lz4_hadoop_codec.rs` holds the Hadoop
  framing: a loop that reads big-endian frame headers and LZ4 blocks, proved
  against the recursive specification `hadoop_frames`, and the writer of one
  frame, proved to read back.
- `levels.rs`, `options.rs`, `basic.rs`: validated compression levels, codec
  options and the compression kinds.
- `bytes.rs`: big-endian 32-bit integers.
- `errors.rs`: the error types.
- `bindings/`: the calls into `snap`, `flate2`, `brotli`, `lz4_flex` and
  `zstd`, each with the contract that the library's source supports. What a
  library computes from its arguments alone is given a name (an
  uninterpreted specification function); the contracts of the codecs are
  stated over these names.

The tests under `tests/` run the codecs with the real libraries.
