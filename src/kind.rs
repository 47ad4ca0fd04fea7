//! Classification of files by name.

use vstd::prelude::*;
use crate::naming::{extension, extension_of, same_text};
use crate::envelope::{recover_extension, recovered_extension};

verus! {

/// The kind of content that a file name announces.
#[derive(Clone, Copy, Debug, PartialEq, Eq, Structural)]
pub enum FileType {
    Image,
    Video,
    Audio,
    Text,
    Other,
}

/// Kind of a file with extension `ext` when a folder is packed.
pub open spec fn kind_of_extension(ext: Seq<char>) -> FileType {
    if ext == "png"@ || ext == "jpg"@ {
        FileType::Image
    } else if ext == "mp4"@ || ext == "avi"@ {
        FileType::Video
    } else if ext == "mp3"@ || ext == "wav"@ {
        FileType::Audio
    } else if ext == "txt"@ {
        FileType::Text
    } else {
        FileType::Other
    }
}

/// Kind of a file with extension `ext` when an archive is restored: as when
/// packing, and `json` is text too.
pub open spec fn restored_kind_of_extension(ext: Seq<char>) -> FileType {
    if ext == "json"@ {
        FileType::Text
    } else {
        kind_of_extension(ext)
    }
}

/// Kind of the file that the archive entry `s` stands for, read through a
/// binary envelope's name where `s` is one.
pub open spec fn kind_of_entry(s: Seq<char>) -> FileType {
    match recovered_extension(s) {
        Some(e) => restored_kind_of_extension(e),
        None => FileType::Other,
    }
}

/// Whether the file at `path` is of kind `file_type`; every file is of
/// kind `Other` for this purpose.
pub open spec fn matches_kind(path: Seq<char>, file_type: FileType) -> bool {
    match file_type {
        FileType::Other => true,
        _ => match extension_of(path) {
            Some(e) => kind_of_extension(e) == file_type,
            None => false,
        },
    }
}

/// The kinds of the extensions that packing recognises.
pub proof fn lemma_known_extensions()
    ensures
        kind_of_extension("png"@) == FileType::Image,
        kind_of_extension("jpg"@) == FileType::Image,
        kind_of_extension("txt"@) == FileType::Text,
        kind_of_extension("json"@) == FileType::Other,
        restored_kind_of_extension("txt"@) == FileType::Text,
        restored_kind_of_extension("json"@) == FileType::Text,
{
    reveal_strlit("png");
    reveal_strlit("jpg");
    reveal_strlit("mp4");
    reveal_strlit("avi");
    reveal_strlit("mp3");
    reveal_strlit("wav");
    reveal_strlit("txt");
    reveal_strlit("json");
    assert("jpg"@[0] != "png"@[0]);
    assert("txt"@[0] != "png"@[0] && "txt"@[0] != "jpg"@[0] && "txt"@[0] != "mp4"@[0]);
    assert("txt"@[0] != "avi"@[0] && "txt"@[0] != "mp3"@[0] && "txt"@[0] != "wav"@[0]);
    assert("json"@.len() != "png"@.len());
}

/// Kind of a file with the given extension when a folder is packed.
pub fn get_file_type(extension: &str) -> (r: FileType)
    ensures
        r == kind_of_extension(extension@),
{
    if same_text(extension, "png") || same_text(extension, "jpg") {
        FileType::Image
    } else if same_text(extension, "mp4") || same_text(extension, "avi") {
        FileType::Video
    } else if same_text(extension, "mp3") || same_text(extension, "wav") {
        FileType::Audio
    } else if same_text(extension, "txt") {
        FileType::Text
    } else {
        FileType::Other
    }
}

/// Whether the file at `path` is of kind `file_type`.
pub fn file_type_matches(path: &str, file_type: &FileType) -> (r: bool)
    ensures
        r == matches_kind(path@, *file_type),
{
    match file_type {
        FileType::Other => true,
        _ => match extension(path) {
            Some(e) => get_file_type(e) == *file_type,
            None => false,
        },
    }
}

/// Kind of the file that the archive entry `path` stands for.
pub fn determine_file_type(path: &str) -> (r: FileType)
    ensures
        r == kind_of_entry(path@),
{
    match recover_extension(path) {
        Some(e) => if same_text(e, "json") {
            FileType::Text
        } else {
            get_file_type(e)
        },
        None => FileType::Other,
    }
}

/// Classifying a name depends on the name alone: equal names get equal
/// kinds, on either side of the archive.
pub proof fn classification_is_a_function_of_the_name(a: Seq<char>, b: Seq<char>)
    requires
        a == b,
    ensures
        kind_of_entry(a) == kind_of_entry(b),
        match (extension_of(a), extension_of(b)) {
            (Some(x), Some(y)) => kind_of_extension(x) == kind_of_extension(y),
            _ => true,
        },
{
}

} // verus!
