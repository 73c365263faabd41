//! Validated compression levels of the gzip, brotli and zstd codecs.
use vstd::prelude::*;

use crate::errors::{is_general_error, ParquetError};

verus! {

/// Checks that `level` lies in `minimum..=maximum`; otherwise fails with a
/// general error whose message is `exceeded_message`.
fn is_valid_level(level: i64, minimum: i64, maximum: i64, exceeded_message: &str) -> (r: Result<(), ParquetError>)
    ensures
        r is Ok <==> minimum <= level <= maximum,
        r matches Err(e) ==> is_general_error(e, exceeded_message@),
{
    if minimum <= level && level <= maximum {
        Ok(())
    } else {
        Err(ParquetError::General(exceeded_message.to_owned()))
    }
}

/// Represents a valid gzip compression level, from 0 (least compression) to
/// 10 (most compression); defaults to 6. Level 9 is the most compression
/// that other software can read; files written at level 10 may not be
/// readable by other Parquet readers.
#[derive(Debug, Eq, PartialEq, Hash, Clone, Copy, Structural)]
pub struct GzipLevel(u32);

impl GzipLevel {
    /// The lowest valid gzip level.
    pub const MINIMUM_LEVEL: u32 = 0;

    /// The highest valid gzip level.
    pub const MAXIMUM_LEVEL: u32 = 10;

    #[verifier::type_invariant]
    spec fn in_range(self) -> bool {
        self.0 <= 10
    }

    /// The level that this value holds.
    pub closed spec fn level(self) -> u32 {
        self.0
    }

    /// Attempts to create a gzip compression level; fails unless `level` is
    /// within `MINIMUM_LEVEL..=MAXIMUM_LEVEL`.
    pub fn try_new(level: u32) -> (r: Result<Self, ParquetError>)
        ensures
            r is Ok <==> Self::MINIMUM_LEVEL <= level <= Self::MAXIMUM_LEVEL,
            r is Ok <==> level <= 10,
            r matches Ok(l) ==> l.level() == level,
            r matches Ok(l) ==> forall|g: Self| #[trigger] g.level() == level ==> g == l,
            r matches Err(e) ==> is_general_error(e, "valid compression range 0..=10 exceeded."@),
    {
        match is_valid_level(level as i64, 0, 10, "valid compression range 0..=10 exceeded.") {
            Ok(()) => Ok(GzipLevel(level)),
            Err(e) => Err(e),
        }
    }

    /// Returns the compression level.
    pub fn compression_level(&self) -> (r: u32)
        ensures
            r == self.level(),
            Self::MINIMUM_LEVEL <= r <= Self::MAXIMUM_LEVEL,
    {
        proof { use_type_invariant(self); }
        self.0
    }
}

impl GzipLevel {
    /// A level is determined by the value it holds: two levels that hold the
    /// same value are equal, so `try_new` of a level's value gives that level
    /// back.
    pub proof fn lemma_level_determines(a: Self, b: Self)
        requires
            a.level() == b.level(),
        ensures
            a == b,
    {
    }
}

impl Default for GzipLevel {
    /// The default gzip level, 6.
    fn default() -> (r: Self)
        ensures
            r.level() == 6,
    {
        GzipLevel(6)
    }
}

/// Represents a valid brotli compression level, from 0 to 11; defaults to 1.
#[derive(Debug, Eq, PartialEq, Hash, Clone, Copy, Structural)]
pub struct BrotliLevel(u32);

impl BrotliLevel {
    /// The lowest valid brotli level.
    pub const MINIMUM_LEVEL: u32 = 0;

    /// The highest valid brotli level.
    pub const MAXIMUM_LEVEL: u32 = 11;

    #[verifier::type_invariant]
    spec fn in_range(self) -> bool {
        self.0 <= 11
    }

    /// The level that this value holds.
    pub closed spec fn level(self) -> u32 {
        self.0
    }

    /// Attempts to create a brotli compression level; fails unless `level` is
    /// within `MINIMUM_LEVEL..=MAXIMUM_LEVEL`.
    pub fn try_new(level: u32) -> (r: Result<Self, ParquetError>)
        ensures
            r is Ok <==> Self::MINIMUM_LEVEL <= level <= Self::MAXIMUM_LEVEL,
            r is Ok <==> level <= 11,
            r matches Ok(l) ==> l.level() == level,
            r matches Ok(l) ==> forall|g: Self| #[trigger] g.level() == level ==> g == l,
            r matches Err(e) ==> is_general_error(e, "valid compression range 0..=11 exceeded."@),
    {
        match is_valid_level(level as i64, 0, 11, "valid compression range 0..=11 exceeded.") {
            Ok(()) => Ok(BrotliLevel(level)),
            Err(e) => Err(e),
        }
    }

    /// Returns the compression level.
    pub fn compression_level(&self) -> (r: u32)
        ensures
            r == self.level(),
            Self::MINIMUM_LEVEL <= r <= Self::MAXIMUM_LEVEL,
    {
        proof { use_type_invariant(self); }
        self.0
    }
}

impl BrotliLevel {
    /// A level is determined by the value it holds: two levels that hold the
    /// same value are equal, so `try_new` of a level's value gives that level
    /// back.
    pub proof fn lemma_level_determines(a: Self, b: Self)
        requires
            a.level() == b.level(),
        ensures
            a == b,
    {
    }
}

impl Default for BrotliLevel {
    /// The default brotli level, 1.
    fn default() -> (r: Self)
        ensures
            r.level() == 1,
    {
        BrotliLevel(1)
    }
}

/// Represents a valid zstd compression level, from 1 to 22; defaults to 1.
#[derive(Debug, Eq, PartialEq, Hash, Clone, Copy, Structural)]
pub struct ZstdLevel(i32);

impl ZstdLevel {
    /// The lowest valid zstd level.
    pub const MINIMUM_LEVEL: i32 = 1;

    /// The highest valid zstd level.
    pub const MAXIMUM_LEVEL: i32 = 22;

    #[verifier::type_invariant]
    spec fn in_range(self) -> bool {
        1 <= self.0 <= 22
    }

    /// The level that this value holds.
    pub closed spec fn level(self) -> i32 {
        self.0
    }

    /// Attempts to create a zstd compression level; fails unless `level` is
    /// within `MINIMUM_LEVEL..=MAXIMUM_LEVEL`.
    pub fn try_new(level: i32) -> (r: Result<Self, ParquetError>)
        ensures
            r is Ok <==> Self::MINIMUM_LEVEL <= level <= Self::MAXIMUM_LEVEL,
            r is Ok <==> 1 <= level <= 22,
            r matches Ok(l) ==> l.level() == level,
            r matches Ok(l) ==> forall|g: Self| #[trigger] g.level() == level ==> g == l,
            r matches Err(e) ==> is_general_error(e, "valid compression range 1..=22 exceeded."@),
    {
        match is_valid_level(level as i64, 1, 22, "valid compression range 1..=22 exceeded.") {
            Ok(()) => Ok(ZstdLevel(level)),
            Err(e) => Err(e),
        }
    }

    /// Returns the compression level.
    pub fn compression_level(&self) -> (r: i32)
        ensures
            r == self.level(),
            Self::MINIMUM_LEVEL <= r <= Self::MAXIMUM_LEVEL,
    {
        proof { use_type_invariant(self); }
        self.0
    }
}

impl ZstdLevel {
    /// A level is determined by the value it holds: two levels that hold the
    /// same value are equal, so `try_new` of a level's value gives that level
    /// back.
    pub proof fn lemma_level_determines(a: Self, b: Self)
        requires
            a.level() == b.level(),
        ensures
            a == b,
    {
    }
}

impl Default for ZstdLevel {
    /// The default zstd level, 1.
    fn default() -> (r: Self)
        ensures
            r.level() == 1,
    {
        ZstdLevel(1)
    }
}

} // verus!
