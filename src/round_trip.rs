//! What packing with conversion and restoring do together.

use vstd::prelude::*;
use crate::naming::{
    ext_dot, extension_of, file_name_of, last_index_of, lemma_last_index_of,
    lemma_last_index_of_absent, lemma_last_index_of_append, lemma_split_extension, name_start,
};
use crate::envelope::{
    envelope_name_of, is_envelope, last_dot_in_name, original_path, recovered_extension,
    recovery_dot, restored_path,
};
use crate::kind::{lemma_known_extensions, FileType};
use crate::pack::{kind_of_path, travels_in_envelope};
use crate::restore::{
    image_format_of_entry, image_format_of_extension, saved_extension, text_format_of_entry, PictureFormat,
};
use crate::unpack::{restore_action_of, RestoreAction};

verus! {

/// The envelope of a file name that holds a dot is an envelope; it stands
/// for that file name, its recovered extension is the text after the name's
/// last dot, and restoring it with that extension gives the name back. This
/// holds as well where that dot is the name's first character (`.txt`).
pub proof fn envelope_names_are_recovered(name: Seq<char>)
    requires
        forall|i: int| 0 <= i < name.len() ==> name[i] != '/',
        last_index_of(name, '.') is Some,
    ensures
        is_envelope(envelope_name_of(name)),
        original_path(envelope_name_of(name)) == name,
        recovered_extension(envelope_name_of(name)) == Some(
            name.subrange(last_index_of(name, '.')->0 + 1, name.len() as int),
        ),
        restored_path(
            envelope_name_of(name),
            name.subrange(last_index_of(name, '.')->0 + 1, name.len() as int),
        ) == name,
        extension_of(name) is Some ==> recovered_extension(envelope_name_of(name)) == extension_of(name),
{
    reveal_strlit(".bin");
    reveal_strlit("bin");
    reveal_strlit(".");
    let suffix = ".bin"@;
    let env = name + suffix;
    lemma_last_index_of_absent(name, '/');
    assert(name_start(name) == 0);
    assert(file_name_of(name) =~= name);
    assert(envelope_name_of(name) == env);
    // The envelope name has no '/' either.
    assert forall|j: int| 0 <= j < env.len() implies env[j] != '/' by {
        if j >= name.len() {
            assert(env[j] == suffix[j - name.len()]);
        }
    }
    lemma_last_index_of_absent(env, '/');
    // Its last '.' is the one that starts ".bin".
    assert(suffix.drop_first() =~= "bin"@);
    lemma_last_index_of_append(name + seq!['.'], "bin"@, '.');
    assert(env =~= (name + seq!['.']) + "bin"@);
    assert((name + seq!['.']).drop_last() =~= name);
    lemma_last_index_of(name, '.');
    assert(ext_dot(env) == Some(name.len() as int));
    assert(env.subrange(name.len() as int + 1, env.len() as int) =~= "bin"@);
    assert(env.subrange(0, name.len() as int) =~= name);
    let d = last_index_of(name, '.')->0;
    assert(last_dot_in_name(name) == Some(d));
    assert(recovery_dot(env) == Some(d));
    assert(name.subrange(0, d) + "."@ + name.subrange(d + 1, name.len() as int) =~= name);
}

/// Packing with conversion and then restoring gives each file that travels
/// in an envelope back under its own name: text is converted back with its
/// own extension, and a PNG or JPEG image is saved back in its own format.
pub proof fn envelopes_restore_to_their_names(name: Seq<char>)
    requires
        forall|i: int| 0 <= i < name.len() ==> name[i] != '/',
        travels_in_envelope(name),
    ensures
        kind_of_path(name) == FileType::Text ==> restore_action_of(envelope_name_of(name))
            == RestoreAction::ConvertText && (text_format_of_entry(envelope_name_of(name)) matches Some(f)
            && restored_path(envelope_name_of(name), f) == name),
        kind_of_path(name) == FileType::Image ==> restore_action_of(envelope_name_of(name))
            == RestoreAction::ConvertImage && (image_format_of_entry(envelope_name_of(name)) matches Some(f)
            && restored_path(envelope_name_of(name), saved_extension(f)) == name),
{
    reveal_strlit("png");
    reveal_strlit("jpg");
    reveal_strlit("txt");
    reveal_strlit("json");
    reveal_strlit("mp4");
    reveal_strlit("avi");
    reveal_strlit("mp3");
    reveal_strlit("wav");
    reveal_strlit("Png");
    reveal_strlit("Jpg");
    reveal_strlit("jpeg");
    reveal_strlit("Jpeg");
    reveal_strlit("Json");
    envelope_names_are_recovered(name);
    let e = extension_of(name)->0;
    let env = envelope_name_of(name);
    assert(recovered_extension(env) == Some(e));
    if e == "txt"@ {
        assert(text_format_of_entry(env) == Some("txt"@));
    } else if e == "png"@ {
        assert(image_format_of_entry(env) == Some(PictureFormat::Png));
    } else if e == "jpg"@ {
        assert("jpg"@[0] != "png"@[0] && "jpg"@[0] != "Png"@[0]);
        assert(image_format_of_extension(e) == Some(PictureFormat::Jpeg));
        assert(image_format_of_entry(env) == Some(PictureFormat::Jpeg));
    }
}

/// A file that is archived as it is, and whose name is not that of an
/// envelope, keeps its name when restored: it is left as it is, or, for
/// JSON, its text is written back under the same name.
pub proof fn raw_files_keep_their_names(name: Seq<char>)
    requires
        !travels_in_envelope(name),
        !is_envelope(name),
    ensures
        restore_action_of(name) == RestoreAction::Keep || (restore_action_of(name)
            == RestoreAction::ConvertText && (text_format_of_entry(name) matches Some(f)
            && restored_path(name, f) == name)),
{
    reveal_strlit("png");
    reveal_strlit("jpg");
    reveal_strlit("txt");
    reveal_strlit("json");
    reveal_strlit("Json");
    reveal_strlit("mp4");
    reveal_strlit("avi");
    reveal_strlit("mp3");
    reveal_strlit("wav");
    if restore_action_of(name) != RestoreAction::Keep {
        lemma_known_extensions();
        assert(extension_of(name) == Some("json"@));
        assert(text_format_of_entry(name) == Some("json"@));
        lemma_split_extension(name);
    }
}

} // verus!
