//! What is done with one purge candidate: the place of its backup copy, and
//! the file system actions in the order in which they are due, one decision
//! after each result.

use crate::error::FailureReason;
use crate::paths::{
    join_paths, parent_of, path_join, path_parent, path_strip_prefix, strip_path_prefix, NO_PATH,
};
use crate::text::{text_or, text_or_default};
use vstd::prelude::*;

verus! {

/// How the processing of one purge candidate ended.
#[derive(Clone, Debug, PartialEq, Eq)]
pub enum OperationOutcome {
    /// Nothing was changed; the file would have been purged.
    Simulated { path: String },
    /// The file was removed from the library.
    Purged { path: String },
    /// The file was copied under the backup root and removed from the library.
    BackedUp { source: String, target: String },
    /// An action failed. The path is the backup copy's where the copy or its
    /// directory could not be made, the file's own where it could not be removed.
    Failed { path: String, reason: FailureReason },
}

/// The mathematical value of an `OperationOutcome`.
pub enum OutcomeView {
    Simulated { path: Seq<char> },
    Purged { path: Seq<char> },
    BackedUp { source: Seq<char>, target: Seq<char> },
    Failed { path: Seq<char>, reason: FailureReason },
}

impl View for OperationOutcome {
    type V = OutcomeView;

    open spec fn view(&self) -> OutcomeView {
        match self {
            OperationOutcome::Simulated { path } => OutcomeView::Simulated { path: path@ },
            OperationOutcome::Purged { path } => OutcomeView::Purged { path: path@ },
            OperationOutcome::BackedUp { source, target } => OutcomeView::BackedUp {
                source: source@,
                target: target@,
            },
            OperationOutcome::Failed { path, reason } => OutcomeView::Failed {
                path: path@,
                reason: *reason,
            },
        }
    }
}

impl DeepView for OperationOutcome {
    type V = OutcomeView;

    open spec fn deep_view(&self) -> OutcomeView {
        self@
    }
}

/// Where the processing of one purge candidate stands: the action on the
/// file system that is due next, or the outcome. The caller performs the
/// action and reports with `advance` whether it succeeded.
#[derive(Clone, Debug, PartialEq, Eq)]
pub enum Step {
    /// Due: find out whether `directory` exists.
    ProbeDirectory { source: String, target: String, directory: String },
    /// Due: create `directory` with every directory above it that is missing.
    CreateDirectory { source: String, target: String, directory: String },
    /// Due: copy the bytes of `source` to `target`.
    CopyFile { source: String, target: String },
    /// Due: remove `source`. `backup` is the copy that was made of it, if any.
    RemoveFile { source: String, backup: Option<String> },
    /// Nothing is due.
    Finished { outcome: OperationOutcome },
}

/// The mathematical value of a `Step`.
pub enum StepView {
    ProbeDirectory { source: Seq<char>, target: Seq<char>, directory: Seq<char> },
    CreateDirectory { source: Seq<char>, target: Seq<char>, directory: Seq<char> },
    CopyFile { source: Seq<char>, target: Seq<char> },
    RemoveFile { source: Seq<char>, backup: Option<Seq<char>> },
    Finished { outcome: OutcomeView },
}

impl View for Step {
    type V = StepView;

    open spec fn view(&self) -> StepView {
        match self {
            Step::ProbeDirectory { source, target, directory } => StepView::ProbeDirectory {
                source: source@,
                target: target@,
                directory: directory@,
            },
            Step::CreateDirectory { source, target, directory } => StepView::CreateDirectory {
                source: source@,
                target: target@,
                directory: directory@,
            },
            Step::CopyFile { source, target } => StepView::CopyFile {
                source: source@,
                target: target@,
            },
            Step::RemoveFile { source, backup } => StepView::RemoveFile {
                source: source@,
                backup: backup.deep_view(),
            },
            Step::Finished { outcome } => StepView::Finished { outcome: outcome@ },
        }
    }
}

/// The place of a file's backup copy: the file's path below the library
/// root, joined onto the backup root. A file that is not below the library
/// root has the empty path there.
pub open spec fn mirrored_path(
    path: Seq<char>,
    library_root: Seq<char>,
    backup_root: Seq<char>,
) -> Seq<char> {
    path_join(backup_root, text_or(path_strip_prefix(path, library_root), NO_PATH@))
}

/// The first step of a backup to `target`, whose parent directory is
/// `directory`: to look for the directory, or to copy at once where the
/// target has no parent.
pub open spec fn backup_step(
    source: Seq<char>,
    target: Seq<char>,
    directory: Option<Seq<char>>,
) -> StepView {
    match directory {
        Some(directory) => StepView::ProbeDirectory { source, target, directory },
        None => StepView::CopyFile { source, target },
    }
}

/// The first step for a purge candidate. Without `purge` nothing is done,
/// with or without a backup root; with `purge` alone the file is removed;
/// with both it is backed up first.
pub open spec fn first_step(
    path: Seq<char>,
    library_root: Seq<char>,
    backup_root: Seq<char>,
    backup: bool,
    purge: bool,
) -> StepView {
    if !purge {
        StepView::Finished { outcome: OutcomeView::Simulated { path } }
    } else if !backup {
        StepView::RemoveFile { source: path, backup: None }
    } else {
        let target = mirrored_path(path, library_root, backup_root);
        backup_step(path, target, path_parent(target))
    }
}

/// The step that follows a step whose action succeeded or failed. For the
/// probe, success means that the directory exists.
pub open spec fn next_step(step: StepView, succeeded: bool) -> StepView {
    match step {
        StepView::ProbeDirectory { source, target, directory } => if succeeded {
            StepView::CopyFile { source, target }
        } else {
            StepView::CreateDirectory { source, target, directory }
        },
        StepView::CreateDirectory { source, target, directory } => if succeeded {
            StepView::CopyFile { source, target }
        } else {
            StepView::Finished {
                outcome: OutcomeView::Failed {
                    path: target,
                    reason: FailureReason::DirectoryCreateFailed,
                },
            }
        },
        StepView::CopyFile { source, target } => if succeeded {
            StepView::RemoveFile { source, backup: Some(target) }
        } else {
            StepView::Finished {
                outcome: OutcomeView::Failed { path: target, reason: FailureReason::CopyFailed },
            }
        },
        StepView::RemoveFile { source, backup } => if succeeded {
            match backup {
                Some(target) => StepView::Finished {
                    outcome: OutcomeView::BackedUp { source, target },
                },
                None => StepView::Finished { outcome: OutcomeView::Purged { path: source } },
            }
        } else {
            StepView::Finished {
                outcome: OutcomeView::Failed { path: source, reason: FailureReason::DeleteFailed },
            }
        },
        StepView::Finished { outcome } => StepView::Finished { outcome },
    }
}

/// The step reached from `step` after the results of its actions, in order.
pub open spec fn run(step: StepView, results: Seq<bool>) -> StepView
    decreases results.len(),
{
    if results.len() == 0 {
        step
    } else {
        next_step(run(step, results.drop_last()), results.last())
    }
}

/// Whether the action of a step changes the file system.
pub open spec fn changes_files(step: StepView) -> bool {
    step is CreateDirectory || step is CopyFile || step is RemoveFile
}

/// The largest number of actions still due from a step on.
pub open spec fn actions_left(step: StepView) -> nat {
    match step {
        StepView::ProbeDirectory { .. } => 4,
        StepView::CreateDirectory { .. } => 3,
        StepView::CopyFile { .. } => 2,
        StepView::RemoveFile { .. } => 1,
        StepView::Finished { .. } => 0,
    }
}

/// Computes the place of a file's backup copy.
pub fn mirrored_location(path: &str, library_path: &str, backup_path: &str) -> (target: String)
    ensures
        target@ == mirrored_path(path@, library_path@, backup_path@),
{
    let relative_source_path = text_or_default(strip_path_prefix(path, library_path), NO_PATH);
    join_paths(backup_path, relative_source_path.as_str())
}

/// Gives the first step of a backup, from the place of the copy and its
/// parent directory.
pub fn begin_backup(source: String, target: String, directory: Option<String>) -> (step: Step)
    ensures
        step@ == backup_step(source@, target@, directory.deep_view()),
{
    match directory {
        Some(directory) => Step::ProbeDirectory { source, target, directory },
        None => Step::CopyFile { source, target },
    }
}

/// Starts the backup of a file: works out where the copy goes and gives
/// the first step.
pub fn backup_file(path: &str, library_path: &str, backup_path: &str) -> (step: Step)
    ensures
        step@ == backup_step(
            path@,
            mirrored_path(path@, library_path@, backup_path@),
            path_parent(mirrored_path(path@, library_path@, backup_path@)),
        ),
{
    let target_path = mirrored_location(path, library_path, backup_path);
    let target_dir = parent_of(target_path.as_str());
    begin_backup(String::from_str(path), target_path, target_dir)
}

/// Starts the processing of a purge candidate and gives the first step.
pub fn purge_or_backup_file(
    path: &str,
    library_path: &str,
    backup_path: &str,
    backup: bool,
    purge: bool,
) -> (step: Step)
    ensures
        step@ == first_step(path@, library_path@, backup_path@, backup, purge),
        !purge ==> step@ == (StepView::Finished { outcome: OutcomeView::Simulated { path: path@ } }),
{
    if !purge {
        Step::Finished { outcome: OperationOutcome::Simulated { path: String::from_str(path) } }
    } else if !backup {
        Step::RemoveFile { source: String::from_str(path), backup: None }
    } else {
        backup_file(path, library_path, backup_path)
    }
}

/// Gives the step that follows, once the action of a step has succeeded or
/// failed. A finished step stays as it is.
pub fn advance(step: Step, succeeded: bool) -> (next: Step)
    ensures
        next@ == next_step(step@, succeeded),
        !(step@ is Finished) ==> actions_left(next@) < actions_left(step@),
{
    match step {
        Step::ProbeDirectory { source, target, directory } => if succeeded {
            Step::CopyFile { source, target }
        } else {
            Step::CreateDirectory { source, target, directory }
        },
        Step::CreateDirectory { source, target, directory } => if succeeded {
            Step::CopyFile { source, target }
        } else {
            Step::Finished {
                outcome: OperationOutcome::Failed {
                    path: target,
                    reason: FailureReason::DirectoryCreateFailed,
                },
            }
        },
        Step::CopyFile { source, target } => if succeeded {
            Step::RemoveFile { source, backup: Some(target) }
        } else {
            Step::Finished {
                outcome: OperationOutcome::Failed { path: target, reason: FailureReason::CopyFailed },
            }
        },
        Step::RemoveFile { source, backup } => if succeeded {
            match backup {
                Some(target) => Step::Finished {
                    outcome: OperationOutcome::BackedUp { source, target },
                },
                None => Step::Finished { outcome: OperationOutcome::Purged { path: source } },
            }
        } else {
            Step::Finished {
                outcome: OperationOutcome::Failed {
                    path: source,
                    reason: FailureReason::DeleteFailed,
                },
            }
        },
        Step::Finished { outcome } => Step::Finished { outcome },
    }
}

/// Once finished, a run stays finished with the same outcome, whatever is
/// reported afterwards.
pub proof fn lemma_finished_is_final(outcome: OutcomeView, results: Seq<bool>)
    ensures
        run(StepView::Finished { outcome }, results) == (StepView::Finished { outcome }),
    decreases results.len(),
{
    if results.len() > 0 {
        lemma_finished_is_final(outcome, results.drop_last());
    }
}

/// Without `purge` nothing is ever changed: with or without a backup root
/// the first step is already the outcome `Simulated`, and no step of the
/// run asks for a change of the file system.
pub proof fn lemma_simulation_changes_nothing(
    path: Seq<char>,
    library_root: Seq<char>,
    backup_root: Seq<char>,
    backup: bool,
    results: Seq<bool>,
)
    ensures
        run(first_step(path, library_root, backup_root, backup, false), results) == (
        StepView::Finished { outcome: OutcomeView::Simulated { path } }),
        !changes_files(run(first_step(path, library_root, backup_root, backup, false), results)),
{
    lemma_finished_is_final(OutcomeView::Simulated { path }, results);
}

/// Every run ends: after as many results as actions were left, the step is
/// finished. From the first step on that is after four results at most.
pub proof fn lemma_run_ends(step: StepView, results: Seq<bool>)
    requires
        results.len() >= actions_left(step),
    ensures
        run(step, results) is Finished,
    decreases results.len(),
{
    lemma_actions_left_falls(step, results);
}

/// Each result lowers the number of actions left, down to none.
pub proof fn lemma_actions_left_falls(step: StepView, results: Seq<bool>)
    ensures
        actions_left(run(step, results)) <= actions_left(step),
        actions_left(run(step, results)) + results.len() <= actions_left(step) || run(
            step,
            results,
        ) is Finished,
    decreases results.len(),
{
    if results.len() > 0 {
        lemma_actions_left_falls(step, results.drop_last());
    }
}

/// The file is removed only once its copy is made: in a run with a backup,
/// the removal is due only directly after the copy to the mirrored place
/// has succeeded, and a copy or a directory that fails ends the run.
pub proof fn lemma_removal_follows_copy(
    path: Seq<char>,
    library_root: Seq<char>,
    backup_root: Seq<char>,
    results: Seq<bool>,
)
    requires
        run(first_step(path, library_root, backup_root, true, true), results) is RemoveFile,
    ensures
        results.len() > 0,
        results.last(),
        run(first_step(path, library_root, backup_root, true, true), results.drop_last()) == (
        StepView::CopyFile {
            source: path,
            target: mirrored_path(path, library_root, backup_root),
        }),
        run(first_step(path, library_root, backup_root, true, true), results) == (
        StepView::RemoveFile {
            source: path,
            backup: Some(mirrored_path(path, library_root, backup_root)),
        }),
{
    let first = first_step(path, library_root, backup_root, true, true);
    lemma_run_keeps_paths(path, mirrored_path(path, library_root, backup_root), first, results);
    if results.len() > 0 {
        lemma_run_keeps_paths(
            path,
            mirrored_path(path, library_root, backup_root),
            first,
            results.drop_last(),
        );
    }
}

/// Whether a step of a backup speaks of the given file and copy.
pub open spec fn backs_up(step: StepView, source: Seq<char>, target: Seq<char>) -> bool {
    match step {
        StepView::ProbeDirectory { source: s, target: t, .. } => s == source && t == target,
        StepView::CreateDirectory { source: s, target: t, .. } => s == source && t == target,
        StepView::CopyFile { source: s, target: t } => s == source && t == target,
        StepView::RemoveFile { source: s, backup } => s == source && backup == Some(target),
        StepView::Finished { outcome } => match outcome {
            OutcomeView::BackedUp { source: s, target: t } => s == source && t == target,
            OutcomeView::Failed { path, reason } => if reason == FailureReason::DeleteFailed {
                path == source
            } else {
                path == target
            },
            _ => false,
        },
    }
}

/// A backup keeps to its file and its copy through every step.
pub proof fn lemma_run_keeps_paths(
    source: Seq<char>,
    target: Seq<char>,
    step: StepView,
    results: Seq<bool>,
)
    requires
        backs_up(step, source, target),
    ensures
        backs_up(run(step, results), source, target),
    decreases results.len(),
{
    if results.len() > 0 {
        lemma_run_keeps_paths(source, target, step, results.drop_last());
    }
}

} // verus!
