//! Decisions of packing a folder: what becomes of each directory entry, and
//! the report of a run, where each entry is either archived or failed.

use vstd::prelude::*;
use crate::naming::{extension, extension_of, file_name, file_name_of};
use crate::envelope::{envelope_name, envelope_name_of};
use crate::kind::{file_type_matches, get_file_type, kind_of_extension, matches_kind, FileType};
use crate::codec::CompressionError;
use crate::restore::{check_image, decodes_as_image, ConversionError};

verus! {

/// What becomes of one entry of the source folder.
#[derive(Debug)]
pub enum EntryPlan {
    /// Not archived: not a file, or not of the kind asked for.
    Skip,
    /// Its bytes go into an envelope, archived under this name.
    Envelope { kind: FileType, name: String },
    /// Its bytes are archived as they are, under this name.
    Raw { name: String },
}

/// Whether a file with this name travels in an envelope when converting:
/// images and text do.
pub open spec fn travels_in_envelope(path: Seq<char>) -> bool {
    match extension_of(path) {
        Some(e) => kind_of_extension(e) == FileType::Image || kind_of_extension(e) == FileType::Text,
        None => false,
    }
}

/// Kind of the file at `path` when a folder is packed.
pub open spec fn kind_of_path(path: Seq<char>) -> FileType {
    match extension_of(path) {
        Some(e) => kind_of_extension(e),
        None => FileType::Other,
    }
}

/// Whether `plan` is the conversion plan of the file at `path`.
pub open spec fn is_conversion_plan(path: Seq<char>, plan: EntryPlan) -> bool {
    if travels_in_envelope(path) {
        plan matches EntryPlan::Envelope { kind, name } && kind == kind_of_path(path)
            && name@ == envelope_name_of(path)
    } else {
        plan matches EntryPlan::Raw { name } && name@ == file_name_of(path)
    }
}

/// How the file at `path` is archived when converting: images and text in
/// an envelope, every other file as it is.
pub fn convert_to_target_format(path: &str) -> (r: EntryPlan)
    ensures
        is_conversion_plan(path@, r),
{
    let kind = match extension(path) {
        Some(e) => get_file_type(e),
        None => FileType::Other,
    };
    match kind {
        FileType::Image | FileType::Text => EntryPlan::Envelope { kind, name: envelope_name(path) },
        _ => EntryPlan::Raw { name: String::from_str(file_name(path)) },
    }
}

/// What becomes of the directory entry at `path`: only files are archived;
/// when converting, only those of kind `file_type`, through
/// `convert_to_target_format`; otherwise each as it is, under its name.
pub fn plan_entry(path: &str, is_file: bool, file_type: &FileType, convert: bool) -> (r: EntryPlan)
    ensures
        !is_file ==> r is Skip,
        is_file && convert && !matches_kind(path@, *file_type) ==> r is Skip,
        is_file && convert && matches_kind(path@, *file_type) ==> is_conversion_plan(path@, r),
        is_file && !convert ==> (r matches EntryPlan::Raw { name } && name@ == file_name_of(path@)),
{
    if !is_file {
        EntryPlan::Skip
    } else if convert {
        if file_type_matches(path, file_type) {
            convert_to_target_format(path)
        } else {
            EntryPlan::Skip
        }
    } else {
        EntryPlan::Raw { name: String::from_str(file_name(path)) }
    }
}

/// Checks the bytes that go into an envelope of kind `kind`: an image must
/// decode.
pub fn check_envelope(kind: FileType, bytes: &[u8]) -> (r: Result<(), ConversionError>)
    ensures
        kind == FileType::Image && !decodes_as_image(bytes@) ==> r == Err::<(), ConversionError>(
            ConversionError::InvalidImageData,
        ),
        !(kind == FileType::Image && !decodes_as_image(bytes@)) ==> r is Ok,
{
    match kind {
        FileType::Image => check_image(bytes),
        _ => Ok(()),
    }
}

/// Why one entry did not make it into the archive.
#[derive(Clone, Copy, Debug, PartialEq, Eq, Structural)]
pub enum EntryError {
    Conversion(ConversionError),
    Compression(CompressionError),
    /// Reading the file or writing the archive failed.
    Io,
}

/// What a packing run did with each entry that it tried to archive.
pub struct PackReport {
    /// Names of the archived entries, in the order they were recorded.
    pub archived: Vec<String>,
    /// Names of the entries that failed, each with its error.
    pub failed: Vec<(String, EntryError)>,
}

/// Number of conversion errors among `failed`.
pub open spec fn conversion_failures(failed: Seq<(String, EntryError)>) -> nat
    decreases failed.len(),
{
    if failed.len() == 0 {
        0
    } else {
        conversion_failures(failed.drop_last()) + if failed.last().1 is Conversion {
            1nat
        } else {
            0nat
        }
    }
}

/// Names of the entries whose outcome is success, in order.
pub open spec fn archived_names(outcomes: Seq<(String, Result<(), EntryError>)>) -> Seq<String>
    decreases outcomes.len(),
{
    if outcomes.len() == 0 {
        Seq::empty()
    } else {
        archived_names(outcomes.drop_last()) + if outcomes.last().1 is Ok {
            seq![outcomes.last().0]
        } else {
            Seq::empty()
        }
    }
}

/// The entries whose outcome is an error, each with its error, in order.
pub open spec fn failed_entries(outcomes: Seq<(String, Result<(), EntryError>)>) -> Seq<(String, EntryError)>
    decreases outcomes.len(),
{
    if outcomes.len() == 0 {
        Seq::empty()
    } else {
        failed_entries(outcomes.drop_last()) + match outcomes.last().1 {
            Ok(_) => Seq::empty(),
            Err(e) => seq![(outcomes.last().0, e)],
        }
    }
}

impl PackReport {
    /// A report with nothing recorded.
    pub fn new() -> (r: PackReport)
        ensures
            r.archived@.len() == 0,
            r.failed@.len() == 0,
    {
        PackReport { archived: Vec::new(), failed: Vec::new() }
    }

    /// Records how the entry `name` ended: archived, or failed with an error.
    pub fn record(&mut self, name: String, outcome: Result<(), EntryError>)
        ensures
            outcome is Ok ==> final(self).archived@ == old(self).archived@.push(name)
                && final(self).failed@ == old(self).failed@,
            outcome matches Err(e) ==> final(self).failed@ == old(self).failed@.push((name, e))
                && final(self).archived@ == old(self).archived@,
    {
        match outcome {
            Ok(()) => self.archived.push(name),
            Err(e) => self.failed.push((name, e)),
        }
    }

    /// The report of a run whose entries ended as `outcomes`: every entry
    /// that succeeded is archived and every other one is listed with its
    /// error, whatever the others came to.
    pub fn from_outcomes(outcomes: &Vec<(String, Result<(), EntryError>)>) -> (r: PackReport)
        ensures
            r.archived@ == archived_names(outcomes@),
            r.failed@ == failed_entries(outcomes@),
            r.archived@.len() + r.failed@.len() == outcomes@.len(),
    {
        let mut report = PackReport::new();
        let mut i: usize = 0;
        while i < outcomes.len()
            invariant
                i <= outcomes@.len(),
                report.archived@ == archived_names(outcomes@.subrange(0, i as int)),
                report.failed@ == failed_entries(outcomes@.subrange(0, i as int)),
                report.archived@.len() + report.failed@.len() == i,
            decreases outcomes@.len() - i,
        {
            assert(outcomes@.subrange(0, i + 1).drop_last() =~= outcomes@.subrange(0, i as int));
            let name = outcomes[i].0.clone();
            let outcome = outcomes[i].1;
            report.record(name, outcome);
            i = i + 1;
        }
        assert(outcomes@.subrange(0, i as int) =~= outcomes@);
        report
    }

    /// Number of entries that failed in conversion.
    pub fn conversion_failures(&self) -> (r: usize)
        ensures
            r == conversion_failures(self.failed@),
    {
        let mut count: usize = 0;
        let mut i: usize = 0;
        while i < self.failed.len()
            invariant
                i <= self.failed@.len(),
                count == conversion_failures(self.failed@.subrange(0, i as int)),
                count <= i,
            decreases self.failed@.len() - i,
        {
            assert(self.failed@.subrange(0, i + 1).drop_last() =~= self.failed@.subrange(0, i as int));
            if let EntryError::Conversion(_) = self.failed[i].1 {
                count = count + 1;
            }
            i = i + 1;
        }
        assert(self.failed@.subrange(0, i as int) =~= self.failed@);
        count
    }
}

/// A run isolates failures: each entry is either archived or listed as
/// failed, in order, whatever the other entries came to; and when every
/// failure is a conversion error, the conversion errors counted are exactly
/// the entries that were not archived.
pub proof fn failures_are_isolated(outcomes: Seq<(String, Result<(), EntryError>)>)
    ensures
        archived_names(outcomes).len() + failed_entries(outcomes).len() == outcomes.len(),
        (forall|i: int| 0 <= i < outcomes.len() ==> (outcomes[i].1 is Ok || outcomes[i].1 matches Err(EntryError::Conversion(_))))
            ==> conversion_failures(failed_entries(outcomes)) == outcomes.len() - archived_names(outcomes).len(),
    decreases outcomes.len(),
{
    if outcomes.len() > 0 {
        let front = outcomes.drop_last();
        failures_are_isolated(front);
        assert forall|i: int| 0 <= i < front.len() implies front[i] == outcomes[i] by {}
        let failed = failed_entries(outcomes);
        if outcomes.last().1 is Err {
            assert(failed.drop_last() =~= failed_entries(front));
        } else {
            assert(failed =~= failed_entries(front));
        }
    }
}

} // verus!
