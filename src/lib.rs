//! Planning and naming logic for packing a folder into a compressed archive
//! and restoring it: file classification, binary envelope names, codec
//! selection, per-entry restore decisions and the retry policy for deleting
//! intermediate files.

pub mod naming;
pub mod codec;
pub mod envelope;
pub mod kind;
pub mod restore;
pub mod retry;
pub mod unpack;
pub mod pack;
pub mod round_trip;
