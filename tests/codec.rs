use zip_packer::codec::{get_compression_method, Codec, CompressionError};

#[test]
fn zstd_level_out_of_range_falls_back_to_three() {
    assert_eq!(get_compression_method("Zstd", 99), Ok((Codec::Zstd, Some(3))));
}

#[test]
fn bzip2_negative_level_falls_back_to_six() {
    assert_eq!(get_compression_method("Bzip2", -1), Ok((Codec::Bzip2, Some(6))));
}

#[test]
fn unknown_algorithm_is_refused() {
    assert_eq!(get_compression_method("Bogus", 3), Err(CompressionError::UnsupportedAlgorithm));
}

#[test]
fn levels_in_range_are_kept() {
    assert_eq!(get_compression_method("Zstd", -7), Ok((Codec::Zstd, Some(-7))));
    assert_eq!(get_compression_method("Zstd", 22), Ok((Codec::Zstd, Some(22))));
    assert_eq!(get_compression_method("Deflated", 0), Ok((Codec::Deflated, Some(0))));
    assert_eq!(get_compression_method("Deflated", 9), Ok((Codec::Deflated, Some(9))));
}

#[test]
fn levels_just_out_of_range_use_the_default() {
    assert_eq!(get_compression_method("Zstd", -8), Ok((Codec::Zstd, Some(3))));
    assert_eq!(get_compression_method("Zstd", 23), Ok((Codec::Zstd, Some(3))));
    assert_eq!(get_compression_method("Deflated", 10), Ok((Codec::Deflated, Some(6))));
    assert_eq!(get_compression_method("Bzip2", i64::MAX), Ok((Codec::Bzip2, Some(6))));
}

#[test]
fn algorithm_names_are_case_sensitive() {
    assert_eq!(get_compression_method("zstd", 3), Err(CompressionError::UnsupportedAlgorithm));
    assert_eq!(get_compression_method("", 3), Err(CompressionError::UnsupportedAlgorithm));
}
