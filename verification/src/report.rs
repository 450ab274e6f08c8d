//! What the run reports: the lists of file types, one line for each file,
//! the closing line and the exit status.

use crate::catalog::{
    audio_types, document_types, music_types, table_texts, AUDIO_FILE_TYPES, DOCUMENT_FILE_TYPES,
    MUSIC_FILE_TYPES,
};
use crate::error::{Root, RunError};
use crate::executor::{OperationOutcome, OutcomeView};
use vstd::prelude::*;

verus! {

/// The escape sequence that sets one of the eight foreground colours, given
/// the colour's digit.
pub open spec fn colour_start(digit: char) -> Seq<char> {
    seq!['\x1b', '[', '3', digit, 'm']
}

/// The escape sequence that resets the style.
pub open spec fn style_reset() -> Seq<char> {
    seq!['\x1b', '[', '0', 'm']
}

/// A text between the escape sequences that colour it.
pub open spec fn coloured(text: Seq<char>, digit: char) -> Seq<char> {
    colour_start(digit) + text + style_reset()
}

/// Whether `styled` is `text` as a terminal style gives it back: coloured
/// where colours are in use, unchanged where they are not.
pub open spec fn is_styled(styled: Seq<char>, text: Seq<char>, digit: char) -> bool {
    styled == text || styled == coloured(text, digit)
}

/// The digit of red among the foreground colours.
pub const RED: char = '1';

/// The digit of green among the foreground colours.
pub const GREEN: char = '2';

/// Calls `console::style(..).red()` and formats the result. Whether colours
/// are in use is decided by the terminal and the environment, so the contract
/// states what holds either way: the text comes back unchanged, or between
/// the escape sequences for red and for reset.
#[verifier::external_body]
pub(crate) fn style_red(text: &str) -> (styled: String)
    ensures
        is_styled(styled@, text@, RED),
{
    console::style(text).red().to_string()
}

/// Calls `console::style(..).green()` and formats the result. Whether colours
/// are in use is decided by the terminal and the environment, so the contract
/// states what holds either way: the text comes back unchanged, or between
/// the escape sequences for green and for reset.
#[verifier::external_body]
pub(crate) fn style_green(text: &str) -> (styled: String)
    ensures
        is_styled(styled@, text@, GREEN),
{
    console::style(text).green().to_string()
}

/// `String::pop` removes the last character and returns it, and returns
/// `None` and leaves the string as it is where the string is empty.
pub assume_specification[ String::pop ](text: &mut String) -> (last: Option<char>)
    ensures
        old(text)@.len() == 0 ==> last is None && final(text)@ == old(text)@,
        old(text)@.len() > 0 ==> last == Some(old(text)@.last()) && final(text)@ == old(
            text,
        )@.drop_last(),
;

/// A text followed by each item of a list, each item followed by a comma
/// and a space.
pub open spec fn with_items(text: Seq<char>, items: Seq<Seq<char>>) -> Seq<char>
    decreases items.len(),
{
    if items.len() == 0 {
        text
    } else {
        with_items(text, items.drop_last()) + items.last() + seq![',', ' ']
    }
}

/// A text without its last character, or as it is where it is empty.
pub open spec fn without_last(text: Seq<char>) -> Seq<char> {
    if text.len() == 0 {
        text
    } else {
        text.drop_last()
    }
}

/// The line that lists file types after a prefix: the items separated by a
/// comma and a space. (With no item the prefix loses its last two characters.)
pub open spec fn list_line(prefix: Seq<char>, items: Seq<Seq<char>>) -> Seq<char> {
    without_last(without_last(with_items(prefix, items)))
}

/// Builds the line that lists file types after a prefix that is already styled.
pub fn list_after_prefix<const N: usize>(styled_prefix: String, arr: &[&'static str; N]) -> (list:
    String)
    ensures
        list@ == list_line(styled_prefix@, table_texts(arr@)),
{
    let mut list = styled_prefix;
    let mut i: usize = 0;
    while i < N
        invariant
            i <= N,
            list@ == with_items(styled_prefix@, table_texts(arr@).take(i as int)),
        decreases N - i,
    {
        proof {
            reveal_strlit(", ");
            let seen = table_texts(arr@).take(i + 1);
            assert(seen.drop_last() =~= table_texts(arr@).take(i as int));
            assert(seen.last() == arr[i as int]@);
        }
        list.append(arr[i]);
        list.append(", ");
        i += 1;
    }
    assert(table_texts(arr@).take(i as int) =~= table_texts(arr@));
    list.pop();
    list.pop();
    list
}

/// Whether `line` lists the items after the prefix in its style, green for
/// types that are kept and red for the others, with or without the colour.
pub open spec fn is_type_list(
    line: Seq<char>,
    prefix: Seq<char>,
    items: Seq<Seq<char>>,
    keep: bool,
) -> bool {
    let digit = if keep {
        GREEN
    } else {
        RED
    };
    line == list_line(prefix, items) || line == list_line(coloured(prefix, digit), items)
}

/// Builds one line of the list of file types: the prefix in green for types
/// that are kept by default and in red for the others, then the types.
pub fn type_list<const N: usize>(prefix: &str, arr: &[&'static str; N], keep: bool) -> (list:
    String)
    ensures
        is_type_list(list@, prefix@, table_texts(arr@), keep),
{
    let styled_prefix = if keep {
        style_green(prefix)
    } else {
        style_red(prefix)
    };
    list_after_prefix(styled_prefix, arr)
}

/// Builds the three lines that list the music, the other audio and the
/// document file types.
pub fn list_types() -> (lines: Vec<String>)
    ensures
        lines.len() == 3,
        is_type_list(lines[0]@, "Music file types: "@, music_types(), true),
        is_type_list(lines[1]@, "Audio file types: "@, audio_types(), false),
        is_type_list(lines[2]@, "Document/booklet file types: "@, document_types(), false),
{
    let mut lines: Vec<String> = Vec::new();
    lines.push(type_list("Music file types: ", &MUSIC_FILE_TYPES, true));
    lines.push(type_list("Audio file types: ", &AUDIO_FILE_TYPES, false));
    lines.push(type_list("Document/booklet file types: ", &DOCUMENT_FILE_TYPES, false));
    lines
}

/// The tag of a file that was removed.
pub const PURGE: &'static str = "PURGED";

/// The tag of a file that was backed up and removed.
pub const BACKUP: &'static str = "BACKED-UP";

/// The tag of a file that would have been purged.
pub const SIMULATE: &'static str = "SIMULATED";

/// The tag of a file on which an action failed.
pub const ERROR: &'static str = "ERROR";

/// The exit status of a run without failures.
pub const SUCCESS: i32 = 0;

/// The exit status of a run that stops because a root does not exist.
pub const PATH_DOES_NOT_EXIST: i32 = 1;

/// The tag of the operation that a run performs on each purge candidate.
pub open spec fn operation_tag(purge: bool, backup_enabled: bool) -> Seq<char> {
    if purge && backup_enabled {
        BACKUP@
    } else if purge {
        PURGE@
    } else {
        SIMULATE@
    }
}

/// Names the operation that a run performs on each purge candidate.
pub fn operation_name(purge: bool, backup_enabled: bool) -> (tag: &'static str)
    ensures
        tag@ == operation_tag(purge, backup_enabled),
{
    if purge && backup_enabled {
        BACKUP
    } else if purge {
        PURGE
    } else {
        SIMULATE
    }
}

/// The tag under which an outcome is reported.
pub open spec fn outcome_tag(outcome: OutcomeView) -> Seq<char> {
    match outcome {
        OutcomeView::Simulated { .. } => SIMULATE@,
        OutcomeView::Purged { .. } => PURGE@,
        OutcomeView::BackedUp { .. } => BACKUP@,
        OutcomeView::Failed { .. } => ERROR@,
    }
}

/// The path under which an outcome is reported: the file's own, but for a
/// failure the path that the failure names.
pub open spec fn outcome_path(outcome: OutcomeView) -> Seq<char> {
    match outcome {
        OutcomeView::Simulated { path } => path,
        OutcomeView::Purged { path } => path,
        OutcomeView::BackedUp { source, .. } => source,
        OutcomeView::Failed { path, .. } => path,
    }
}

/// The line that reports a path under a tag.
pub open spec fn tagged_line(tag: Seq<char>, path: Seq<char>) -> Seq<char> {
    seq!['['] + tag + seq![']', ' '] + path
}

/// Builds the line that reports a path under a tag.
pub fn tag_line(tag: &str, path: &str) -> (line: String)
    ensures
        line@ == tagged_line(tag@, path@),
{
    proof {
        reveal_strlit("[");
        reveal_strlit("] ");
    }
    let line = String::from_str("[").concat(tag).concat("] ").concat(path);
    assert(line@ =~= tagged_line(tag@, path@));
    line
}

/// Builds the line that reports one outcome, for a run that reports each
/// file: a failure in red where colours are in use, any other outcome plain.
/// A run that does not report each file has no line.
pub fn outcome_line(outcome: &OperationOutcome, verbose: bool) -> (line: Option<String>)
    ensures
        !verbose ==> line is None,
        verbose && !(outcome@ is Failed) ==> line is Some && line->0@ == tagged_line(
            outcome_tag(outcome@),
            outcome_path(outcome@),
        ),
        verbose && outcome@ is Failed ==> line is Some && is_styled(
            line->0@,
            tagged_line(outcome_tag(outcome@), outcome_path(outcome@)),
            RED,
        ),
{
    if !verbose {
        return None;
    }
    match outcome {
        OperationOutcome::Simulated { path } => Some(tag_line(SIMULATE, path.as_str())),
        OperationOutcome::Purged { path } => Some(tag_line(PURGE, path.as_str())),
        OperationOutcome::BackedUp { source, .. } => Some(tag_line(BACKUP, source.as_str())),
        OperationOutcome::Failed { path, .. } => Some(
            style_red(tag_line(ERROR, path.as_str()).as_str()),
        ),
    }
}

/// The character of a decimal digit.
pub open spec fn digit_char(digit: nat) -> char {
    seq!['0', '1', '2', '3', '4', '5', '6', '7', '8', '9'][digit as int]
}

/// A number in decimal digits, without leading zeros.
pub open spec fn decimal(n: nat) -> Seq<char>
    decreases n,
{
    if n < 10 {
        seq![digit_char(n)]
    } else {
        decimal(n / 10).push(digit_char(n % 10))
    }
}

fn digit_text(digit: usize) -> (text: &'static str)
    requires
        digit < 10,
    ensures
        text@ == seq![digit_char(digit as nat)],
{
    proof {
        reveal_strlit("0");
        reveal_strlit("1");
        reveal_strlit("2");
        reveal_strlit("3");
        reveal_strlit("4");
        reveal_strlit("5");
        reveal_strlit("6");
        reveal_strlit("7");
        reveal_strlit("8");
        reveal_strlit("9");
    }
    let text = if digit == 0 {
        "0"
    } else if digit == 1 {
        "1"
    } else if digit == 2 {
        "2"
    } else if digit == 3 {
        "3"
    } else if digit == 4 {
        "4"
    } else if digit == 5 {
        "5"
    } else if digit == 6 {
        "6"
    } else if digit == 7 {
        "7"
    } else if digit == 8 {
        "8"
    } else {
        "9"
    };
    assert(text@ =~= seq![digit_char(digit as nat)]);
    text
}

/// Writes a number in decimal digits.
pub fn decimal_text(n: usize) -> (text: String)
    ensures
        text@ == decimal(n as nat),
    decreases n,
{
    if n < 10 {
        String::from_str(digit_text(n))
    } else {
        let mut text = decimal_text(n / 10);
        text.append(digit_text(n % 10));
        assert(text@ =~= decimal(n as nat));
        text
    }
}

/// The counts of a run.
#[derive(Clone, Copy, Debug, PartialEq, Eq, Structural)]
pub struct Summary {
    /// The number of files that were processed.
    pub processed: usize,
    /// The number of files on which an action failed.
    pub errors: usize,
}

/// The number of failures among some outcomes.
pub open spec fn failures(outcomes: Seq<OutcomeView>) -> nat {
    outcomes.filter(|outcome: OutcomeView| outcome is Failed).len()
}

/// Counts the outcomes of a run and the failures among them.
pub fn summarize(outcomes: &Vec<OperationOutcome>) -> (summary: Summary)
    ensures
        summary.processed == outcomes.len(),
        summary.errors == failures(outcomes.deep_view()),
        summary.errors <= summary.processed,
{
    let ghost failed = |outcome: OutcomeView| outcome is Failed;
    let mut errors: usize = 0;
    let mut i: usize = 0;
    while i < outcomes.len()
        invariant
            i <= outcomes.len(),
            errors <= i,
            failed == |outcome: OutcomeView| outcome is Failed,
            errors == outcomes.deep_view().take(i as int).filter(failed).len(),
        decreases outcomes.len() - i,
    {
        proof {
            let seen = outcomes.deep_view().take(i + 1);
            assert(seen =~= outcomes.deep_view().take(i as int).push(outcomes[i as int]@));
            outcomes.deep_view().take(i as int).lemma_filter_push(outcomes[i as int]@, failed);
        }
        if let OperationOutcome::Failed { .. } = &outcomes[i] {
            errors += 1;
        }
        i += 1;
    }
    assert(outcomes.deep_view().take(i as int) =~= outcomes.deep_view());
    Summary { processed: outcomes.len(), errors }
}

/// The closing line of a run, before any colour: the number of files under
/// the operation's tag where nothing failed, else the number of failures
/// among the number of files.
pub open spec fn summary_text(processed: nat, errors: nat, tag: Seq<char>) -> Seq<char> {
    if errors == 0 {
        decimal(processed) + " files successfuly "@ + tag + "."@
    } else {
        decimal(errors) + " errors out of "@ + decimal(processed) + " files."@
    }
}

/// Builds the closing line of a run that reports each file: plain where
/// nothing failed, else in red where colours are in use. A run that does
/// not report each file has no closing line.
pub fn summary_line(summary: &Summary, tag: &str, verbose: bool) -> (line: Option<String>)
    ensures
        !verbose ==> line is None,
        verbose && summary.errors == 0 ==> line is Some && line->0@ == summary_text(
            summary.processed as nat,
            0,
            tag@,
        ),
        verbose && summary.errors > 0 ==> line is Some && is_styled(
            line->0@,
            summary_text(summary.processed as nat, summary.errors as nat, tag@),
            RED,
        ),
{
    if !verbose {
        return None;
    }
    if summary.errors == 0 {
        let line = decimal_text(summary.processed).concat(" files successfuly ").concat(
            tag,
        ).concat(".");
        Some(line)
    } else {
        let line = decimal_text(summary.errors).concat(" errors out of ").concat(
            decimal_text(summary.processed).as_str(),
        ).concat(" files.");
        Some(style_red(line.as_str()))
    }
}

/// The exit status of a finished run: the number of failures, as far as
/// the status can hold it.
pub open spec fn status_of(errors: nat) -> int {
    if errors <= i32::MAX {
        errors as int
    } else {
        i32::MAX as int
    }
}

/// Gives the exit status of a finished run: zero where nothing failed,
/// else the number of failures.
pub fn exit_status(summary: &Summary) -> (status: i32)
    ensures
        status == status_of(summary.errors as nat),
        status == SUCCESS <==> summary.errors == 0,
{
    if summary.errors <= 0x7fff_ffff {
        summary.errors as i32
    } else {
        0x7fff_ffff
    }
}

/// What is said of a root that does not exist.
pub open spec fn missing_root_text(root: Root, path: Seq<char>) -> Seq<char> {
    (match root {
        Root::Library => "Library path \""@,
        Root::Backup => "Backup path \""@,
    }) + path + "\" does not exist."@
}

/// Says of a root that it does not exist.
pub fn missing_root_message(root: Root, path: &str) -> (message: String)
    ensures
        message@ == missing_root_text(root, path@),
{
    let start = match root {
        Root::Library => "Library path \"",
        Root::Backup => "Backup path \"",
    };
    String::from_str(start).concat(path).concat("\" does not exist.")
}

/// Checks the roots before a run: the library root must exist, and so must
/// the backup root where one is given. The library root is looked at first.
pub fn check_roots(
    library_path: &str,
    library_exists: bool,
    backup_path: &Option<String>,
    backup_exists: bool,
) -> (result: Result<(), RunError>)
    ensures
        !library_exists ==> (result matches Err(RunError::PathNotFound { root, path }) && root
            == Root::Library && path@ == library_path@),
        library_exists && backup_path is Some && !backup_exists ==> (result matches Err(
            RunError::PathNotFound { root, path },
        ) && root == Root::Backup && path@ == backup_path->0@),
        library_exists && (backup_path is None || backup_exists) ==> result is Ok,
{
    if !library_exists {
        return Err(
            RunError::PathNotFound { root: Root::Library, path: String::from_str(library_path) },
        );
    }
    match backup_path {
        Some(backup_root) => if backup_exists {
            Ok(())
        } else {
            Err(RunError::PathNotFound { root: Root::Backup, path: backup_root.clone() })
        },
        None => Ok(()),
    }
}

} // verus!
