//! Names of binary envelopes: a file `<name>.<ext>` travels as
//! `<name>.<ext>.bin`, and its original extension is read back from the
//! envelope's name alone.

use vstd::prelude::*;
use vstd::string::*;
use crate::naming::{
    ext_dot, extension, extension_dot, extension_of, file_name, file_name_of, last_index_of,
    last_index_of_char, lemma_last_index_of, name_start, same_text, strip_extension,
    without_extension,
};

verus! {

/// Whether the path names a binary envelope.
pub open spec fn is_envelope(s: Seq<char>) -> bool {
    extension_of(s) == Some("bin"@)
}

/// The path that an envelope stands for: one trailing `.bin` removed.
/// Any other path stands for itself.
pub open spec fn original_path(s: Seq<char>) -> Seq<char> {
    if is_envelope(s) {
        without_extension(s)
    } else {
        s
    }
}

/// Index of the last dot in the file name of `s`, counting a dot that is
/// the file name's first character.
pub open spec fn last_dot_in_name(s: Seq<char>) -> Option<int> {
    match last_index_of(s, '.') {
        Some(d) => if d >= name_start(s) {
            Some(d)
        } else {
            None
        },
        None => None,
    }
}

/// Index, in `original_path(s)`, of the dot that starts the extension of
/// the file that `s` stands for. Behind an envelope's `.bin` only the last
/// dot of the file name counts, wherever it stands; elsewhere a leading dot
/// marks a hidden file, not an extension.
pub open spec fn recovery_dot(s: Seq<char>) -> Option<int> {
    if is_envelope(s) {
        last_dot_in_name(without_extension(s))
    } else {
        ext_dot(s)
    }
}

/// The extension of the file that the path stands for.
pub open spec fn recovered_extension(s: Seq<char>) -> Option<Seq<char>> {
    match recovery_dot(s) {
        Some(d) => Some(original_path(s).subrange(d + 1, original_path(s).len() as int)),
        None => None,
    }
}

/// Name of the envelope that holds the file at `path`.
pub open spec fn envelope_name_of(path: Seq<char>) -> Seq<char> {
    file_name_of(path) + ".bin"@
}

/// The path that the envelope or file `s` is restored to when it is
/// written back with extension `ext`.
pub open spec fn restored_path(s: Seq<char>, ext: Seq<char>) -> Seq<char> {
    let base = match recovery_dot(s) {
        Some(d) => original_path(s).subrange(0, d),
        None => original_path(s),
    };
    base + "."@ + ext
}

/// Name of the envelope that holds the file at `path`: its file name with
/// `.bin` appended.
pub fn envelope_name(path: &str) -> (r: String)
    ensures
        r@ == envelope_name_of(path@),
{
    let mut r = String::from_str(file_name(path));
    r.append(".bin");
    r
}

/// The path that `s` stands for: an envelope's path without its `.bin`.
pub fn strip_envelope(s: &str) -> (r: &str)
    ensures
        r@ == original_path(s@),
{
    match extension(s) {
        Some(e) => if same_text(e, "bin") {
            strip_extension(s)
        } else {
            s
        },
        None => s,
    }
}

/// Index of the last dot in the file name of `s`.
pub fn last_dot_in_file_name(s: &str) -> (r: Option<usize>)
    ensures
        match r {
            Some(d) => last_dot_in_name(s@) == Some(d as int) && d < s@.len(),
            None => last_dot_in_name(s@) is None,
        },
{
    let start: usize = match last_index_of_char(s, '/') {
        Some(i) => i + 1,
        None => 0,
    };
    match last_index_of_char(s, '.') {
        Some(d) => if d >= start {
            Some(d)
        } else {
            None
        },
        None => None,
    }
}

/// Index, in `strip_envelope(s)`, of the dot that starts the extension of
/// the file that `s` stands for.
pub fn recovery_dot_of(s: &str) -> (r: Option<usize>)
    ensures
        match r {
            Some(d) => recovery_dot(s@) == Some(d as int) && d < original_path(s@).len(),
            None => recovery_dot(s@) is None,
        },
{
    proof {
        lemma_last_index_of(s@, '.');
    }
    match extension(s) {
        Some(e) => if same_text(e, "bin") {
            last_dot_in_file_name(strip_extension(s))
        } else {
            extension_dot(s)
        },
        None => extension_dot(s),
    }
}

/// The extension of the file that `s` stands for: for `photo.png.bin` it is
/// `png`, for `.txt.bin` it is `txt`, for `notes.txt` it is `txt`.
pub fn recover_extension(s: &str) -> (r: Option<&str>)
    ensures
        match r {
            Some(e) => recovered_extension(s@) == Some(e@),
            None => recovered_extension(s@) is None,
        },
{
    let o = strip_envelope(s);
    match recovery_dot_of(s) {
        Some(d) => {
            let n = o.unicode_len();
            Some(o.substring_char(d + 1, n))
        },
        None => None,
    }
}

/// The path that `s` is restored to with extension `ext`.
pub fn restore_path(s: &str, ext: &str) -> (r: String)
    ensures
        r@ == restored_path(s@, ext@),
{
    let o = strip_envelope(s);
    let base = match recovery_dot_of(s) {
        Some(d) => o.substring_char(0, d),
        None => o,
    };
    let mut r = String::from_str(base);
    r.append(".");
    r.append(ext);
    r
}

} // verus!
