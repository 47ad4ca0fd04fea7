//! Choice of the compression codec and level for one archive entry.

use vstd::prelude::*;

verus! {

/// A compression algorithm that entries can be written with.
#[derive(Clone, Copy, Debug, PartialEq, Eq, Structural)]
pub enum Codec {
    Zstd,
    Bzip2,
    Deflated,
}

/// Why a compression request cannot be served.
#[derive(Clone, Copy, Debug, PartialEq, Eq, Structural)]
pub enum CompressionError {
    /// The algorithm name is none of `Zstd`, `Bzip2`, `Deflated`.
    UnsupportedAlgorithm,
}

/// The codec that an algorithm name selects.
pub open spec fn codec_named(name: Seq<char>) -> Option<Codec> {
    if name == "Zstd"@ {
        Some(Codec::Zstd)
    } else if name == "Bzip2"@ {
        Some(Codec::Bzip2)
    } else if name == "Deflated"@ {
        Some(Codec::Deflated)
    } else {
        None
    }
}

/// Lowest level that the codec accepts.
pub open spec fn min_level(c: Codec) -> int {
    match c {
        Codec::Zstd => -7,
        _ => 0,
    }
}

/// Highest level that the codec accepts.
pub open spec fn max_level(c: Codec) -> int {
    match c {
        Codec::Zstd => 22,
        _ => 9,
    }
}

/// Level used when the requested one is out of the codec's range.
pub open spec fn default_level(c: Codec) -> int {
    match c {
        Codec::Zstd => 3,
        _ => 6,
    }
}

/// The level that a request for `level` with codec `c` is served with.
pub open spec fn resolved_level(c: Codec, level: int) -> int {
    if min_level(c) <= level <= max_level(c) {
        level
    } else {
        default_level(c)
    }
}

/// Maps an algorithm name and a requested level to a codec and a level in
/// that codec's range; a level out of range becomes the codec's default.
pub fn get_compression_method(algorithm: &str, level: i64) -> (r: Result<(Codec, Option<i64>), CompressionError>)
    ensures
        match codec_named(algorithm@) {
            Some(c) => r == Ok::<(Codec, Option<i64>), CompressionError>((c, Some(resolved_level(c, level as int) as i64))),
            None => r == Err::<(Codec, Option<i64>), CompressionError>(CompressionError::UnsupportedAlgorithm),
        },
        r matches Ok((c, Some(l))) ==> min_level(c) <= l <= max_level(c),
{
    if crate::naming::same_text(algorithm, "Zstd") {
        let valid_level: i64 = if level >= -7 && level <= 22 { level } else { 3 };
        Ok((Codec::Zstd, Some(valid_level)))
    } else if crate::naming::same_text(algorithm, "Bzip2") {
        let valid_level: i64 = if level >= 0 && level <= 9 { level } else { 6 };
        Ok((Codec::Bzip2, Some(valid_level)))
    } else if crate::naming::same_text(algorithm, "Deflated") {
        let valid_level: i64 = if level >= 0 && level <= 9 { level } else { 6 };
        Ok((Codec::Deflated, Some(valid_level)))
    } else {
        Err(CompressionError::UnsupportedAlgorithm)
    }
}

} // verus!
