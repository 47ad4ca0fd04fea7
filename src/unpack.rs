//! Decisions of a restore: the order of its steps and what becomes of each
//! entry once its bytes are on disk.

use vstd::prelude::*;
use crate::naming::{extension, extension_of, same_text};
use crate::envelope::is_envelope;
use crate::kind::{determine_file_type, kind_of_entry, FileType};

verus! {

/// What happens to an entry after it is written out.
#[derive(Clone, Copy, Debug, PartialEq, Eq, Structural)]
pub enum RestoreAction {
    /// An envelope of an image: decode it and save the image.
    ConvertImage,
    /// An envelope of a text file, or a text file: decode it as text.
    ConvertText,
    /// An envelope of a kind that is not converted back; it is reported and
    /// left as it is.
    Unsupported(FileType),
    /// Any other file stays as it was written.
    Keep,
}

/// The action for the entry at path `s`.
pub open spec fn restore_action_of(s: Seq<char>) -> RestoreAction {
    if is_envelope(s) {
        match kind_of_entry(s) {
            FileType::Image => RestoreAction::ConvertImage,
            FileType::Text => RestoreAction::ConvertText,
            k => RestoreAction::Unsupported(k),
        }
    } else if extension_of(s) == Some("txt"@) || extension_of(s) == Some("json"@) {
        RestoreAction::ConvertText
    } else {
        RestoreAction::Keep
    }
}

/// The action for the entry written at `path`.
pub fn restore_action(path: &str) -> (r: RestoreAction)
    ensures
        r == restore_action_of(path@),
{
    match extension(path) {
        Some(e) => if same_text(e, "bin") {
            match determine_file_type(path) {
                FileType::Image => RestoreAction::ConvertImage,
                FileType::Text => RestoreAction::ConvertText,
                k => RestoreAction::Unsupported(k),
            }
        } else if same_text(e, "txt") || same_text(e, "json") {
            RestoreAction::ConvertText
        } else {
            RestoreAction::Keep
        },
        None => RestoreAction::Keep,
    }
}

/// Whether the file written at `entry_path` is removed once its conversion
/// wrote `restored_path`: it is, unless the conversion rewrote it in place.
pub fn remove_after_conversion(entry_path: &str, restored_path: &str) -> (r: bool)
    ensures
        r == (entry_path@ != restored_path@),
{
    !same_text(entry_path, restored_path)
}

/// The next thing a restore does.
#[derive(Clone, Copy, Debug, PartialEq, Eq, Structural)]
pub enum RestoreStep {
    /// Read the entry with this index and hand it to its own task.
    ReadEntry(usize),
    /// Wait for every task, then clear the staging folder.
    Sweep,
    Finish,
}

/// Where a restore stands, once its archive is open.
#[derive(Clone, Copy, Debug, PartialEq, Eq, Structural)]
pub struct RestoreRun {
    /// Entries in the archive.
    pub total: usize,
    /// Index of the next entry to read.
    pub next: usize,
    /// Whether the sweep has been done.
    pub swept: bool,
}

/// The state after one step of `s`, and that step.
pub open spec fn restore_step(s: RestoreRun) -> (RestoreRun, RestoreStep) {
    if s.total == 0 {
        (s, RestoreStep::Finish)
    } else if s.next < s.total {
        (RestoreRun { next: (s.next + 1) as usize, ..s }, RestoreStep::ReadEntry(s.next))
    } else if !s.swept {
        (RestoreRun { swept: true, ..s }, RestoreStep::Sweep)
    } else {
        (s, RestoreStep::Finish)
    }
}

/// The steps of a restore from `s` on, up to and including `Finish`.
pub open spec fn restore_steps(s: RestoreRun) -> Seq<RestoreStep>
    decreases s.total - s.next + (if s.swept { 0int } else { 1int }),
{
    if s.next > s.total {
        Seq::empty()
    } else {
        let (t, step) = restore_step(s);
        if step == RestoreStep::Finish {
            seq![step]
        } else {
            seq![step] + restore_steps(t)
        }
    }
}

impl RestoreRun {
    pub open spec fn wf(&self) -> bool {
        &&& self.next <= self.total
        &&& self.swept ==> self.next == self.total
    }

    /// A restore of an archive with `total` entries, before any step.
    pub fn new(total: usize) -> (r: RestoreRun)
        ensures
            r == (RestoreRun { total, next: 0, swept: false }),
            r.wf(),
    {
        RestoreRun { total, next: 0, swept: false }
    }

    /// Takes the next step.
    pub fn step(&mut self) -> (r: RestoreStep)
        requires
            old(self).wf(),
        ensures
            *final(self) == restore_step(*old(self)).0,
            r == restore_step(*old(self)).1,
            final(self).wf(),
    {
        if self.total == 0 {
            RestoreStep::Finish
        } else if self.next < self.total {
            let i = self.next;
            self.next = self.next + 1;
            RestoreStep::ReadEntry(i)
        } else if !self.swept {
            self.swept = true;
            RestoreStep::Sweep
        } else {
            RestoreStep::Finish
        }
    }
}

/// An archive without entries is restored without any step but `Finish`.
pub proof fn empty_archive_needs_no_work()
    ensures
        restore_steps(RestoreRun { total: 0, next: 0, swept: false }) == seq![RestoreStep::Finish],
{
}

/// An archive with `n` entries is restored by reading each entry once, in
/// order, then one sweep.
pub proof fn every_entry_is_read_once(n: usize)
    requires
        n > 0,
    ensures
        restore_steps(RestoreRun { total: n, next: 0, swept: false }) =~= Seq::new(
            (n + 2) as nat,
            |i: int| if i < n {
                RestoreStep::ReadEntry(i as usize)
            } else if i == n {
                RestoreStep::Sweep
            } else {
                RestoreStep::Finish
            },
        ),
{
    lemma_steps_from(n, 0);
}

proof fn lemma_steps_from(n: usize, k: usize)
    requires
        0 < n,
        k <= n,
    ensures
        restore_steps(RestoreRun { total: n, next: k, swept: false }) =~= Seq::new(
            (n - k + 2) as nat,
            |i: int| if i + k < n {
                RestoreStep::ReadEntry((i + k) as usize)
            } else if i + k == n {
                RestoreStep::Sweep
            } else {
                RestoreStep::Finish
            },
        ),
    decreases n - k,
{
    let s = RestoreRun { total: n, next: k, swept: false };
    if k < n {
        lemma_steps_from(n, (k + 1) as usize);
    } else {
        let t = RestoreRun { total: n, next: k, swept: true };
        assert(restore_steps(t) == seq![RestoreStep::Finish]);
    }
}

} // verus!
