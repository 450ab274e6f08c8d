//! Paths as text: the parts of a path that classification and backup read,
//! and the pattern by which a library is listed.

use crate::error::RunError;
use crate::text::text_or_default;
use vstd::prelude::*;

verus! {

/// The pattern, below the library root, that matches every entry at every depth.
pub const WILDCARD: &'static str = "**/*";

/// The text that stands for a path that is absent.
pub const NO_PATH: &'static str = "";

/// The text that stands for a file name that is absent.
pub const NO_FILE_NAME: &'static str = "";

/// The last component of a path as `std::path::Path::file_name` gives it;
/// `None` where the path has none.
pub uninterp spec fn path_file_name(path: Seq<char>) -> Option<Seq<char>>;

/// The path that `std::path::Path::join` makes of a base and a tail.
pub uninterp spec fn path_join(base: Seq<char>, tail: Seq<char>) -> Seq<char>;

/// What `std::path::Path::strip_prefix` leaves of a path below a base; `None`
/// where the base is not a prefix of the path.
pub uninterp spec fn path_strip_prefix(path: Seq<char>, base: Seq<char>) -> Option<Seq<char>>;

/// The path without its last component as `std::path::Path::parent` gives
/// it; `None` where there is none.
pub uninterp spec fn path_parent(path: Seq<char>) -> Option<Seq<char>>;

/// Whether `glob::Pattern::new` accepts a text as a pattern.
pub uninterp spec fn glob_pattern_valid(pattern: Seq<char>) -> bool;

/// Calls `std::path::Path::file_name` on the path that a text denotes. The
/// contract only names the result: the same text gives the same component.
#[verifier::external_body]
pub(crate) fn final_component(path: &str) -> (name: Option<String>)
    ensures
        name.deep_view() == path_file_name(path@),
{
    match std::path::Path::new(path).file_name() {
        Some(name) => Some(name.to_string_lossy().into_owned()),
        None => None,
    }
}

/// Calls `std::path::Path::join`. The contract only names the result: the
/// same base and tail give the same path.
#[verifier::external_body]
pub(crate) fn join_paths(base: &str, tail: &str) -> (joined: String)
    ensures
        joined@ == path_join(base@, tail@),
{
    std::path::Path::new(base).join(tail).to_string_lossy().into_owned()
}

/// Calls `std::path::Path::strip_prefix`. The contract only names the
/// result: the same path and base give the same remainder, or none.
#[verifier::external_body]
pub(crate) fn strip_path_prefix(path: &str, base: &str) -> (rest: Option<String>)
    ensures
        rest.deep_view() == path_strip_prefix(path@, base@),
{
    match std::path::Path::new(path).strip_prefix(base) {
        Ok(rest) => Some(rest.to_string_lossy().into_owned()),
        Err(_) => None,
    }
}

/// Calls `std::path::Path::parent`. The contract only names the result: the
/// same path gives the same parent, or none.
#[verifier::external_body]
pub(crate) fn parent_of(path: &str) -> (parent: Option<String>)
    ensures
        parent.deep_view() == path_parent(path@),
{
    match std::path::Path::new(path).parent() {
        Some(parent) => Some(parent.to_string_lossy().into_owned()),
        None => None,
    }
}

/// Calls `glob::Pattern::new` and says whether it accepted the text. The
/// contract only names the result: the same text is accepted or refused alike.
#[verifier::external_body]
pub(crate) fn glob_pattern_compiles(pattern: &str) -> (valid: bool)
    ensures
        valid == glob_pattern_valid(pattern@),
{
    glob::Pattern::new(pattern).is_ok()
}

/// The base name of a path: its last component, empty where it has none.
pub open spec fn base_name(path: Seq<char>) -> Seq<char> {
    match path_file_name(path) {
        Some(name) => name,
        None => Seq::empty(),
    }
}

/// Whether `i` is the place of the last full stop in a name.
pub open spec fn is_last_dot(name: Seq<char>, i: int) -> bool {
    &&& 0 <= i < name.len()
    &&& name[i] == '.'
    &&& forall|j: int| i < j < name.len() ==> name[j] != '.'
}

/// The extension of a base name: the text after its last full stop, empty
/// where it has no full stop.
pub open spec fn extension_of(name: Seq<char>) -> Seq<char> {
    if exists|i: int| is_last_dot(name, i) {
        name.skip((choose|i: int| is_last_dot(name, i)) + 1)
    } else {
        Seq::empty()
    }
}

/// Finds the last full stop of a name.
fn last_dot(name: &str) -> (found: Option<usize>)
    ensures
        match found {
            Some(i) => is_last_dot(name@, i as int),
            None => forall|i: int| !is_last_dot(name@, i),
        },
{
    let mut found: Option<usize> = None;
    let mut index: usize = 0;
    let length = name.unicode_len();
    for c in chars: name.chars()
        invariant
            index == chars.index(),
            chars.seq() == name@,
            length == name@.len(),
            match found {
                Some(i) => i < index && is_last_dot(name@.take(index as int), i as int),
                None => !name@.take(index as int).contains('.'),
            },
    {
        if c == '.' {
            found = Some(index);
        }
        index = index + 1;
    }
    assert(name@.take(index as int) =~= name@);
    found
}

/// Gives the base name of a path, empty where the path has none.
pub fn file_name_text(path: &str) -> (name: String)
    ensures
        name@ == base_name(path@),
{
    proof {
        reveal_strlit("");
    }
    text_or_default(final_component(path), NO_FILE_NAME)
}

/// Gives the extension of a base name, in the case in which it is written.
pub fn file_extension(name: &str) -> (extension: String)
    ensures
        extension@ == extension_of(name@),
{
    match last_dot(name) {
        Some(i) => {
            let length = name.unicode_len();
            assert forall|j: int| is_last_dot(name@, j) implies j == i by {}
            String::from_str(name.substring_char(i + 1, length))
        },
        None => String::new(),
    }
}

/// The extension of a stem, a full stop and a text without full stop is
/// that text; a name without full stop has the empty extension; and no
/// extension holds a full stop.
pub proof fn lemma_extension_of(stem: Seq<char>, extension: Seq<char>, name: Seq<char>)
    ensures
        !extension.contains('.') ==> extension_of(stem + seq!['.'] + extension) == extension,
        !name.contains('.') ==> extension_of(name) == Seq::<char>::empty(),
        !extension_of(name).contains('.'),
{
    if !extension.contains('.') {
        let joined = stem + seq!['.'] + extension;
        let dot = stem.len() as int;
        assert(joined[dot] == '.');
        assert forall|j: int| dot < j < joined.len() implies joined[j] != '.' by {
            assert(joined[j] == extension[j - dot - 1]);
        }
        assert(is_last_dot(joined, dot));
        let chosen = choose|i: int| is_last_dot(joined, i);
        assert(chosen == dot);
        assert(joined.skip(dot + 1) =~= extension);
    }
    if exists|i: int| is_last_dot(name, i) {
        let chosen = choose|i: int| is_last_dot(name, i);
        let found = name.skip(chosen + 1);
        assert forall|j: int| 0 <= j < found.len() implies found[j] != '.' by {
            assert(found[j] == name[chosen + 1 + j]);
        }
    } else {
        assert(Seq::<char>::empty().len() == 0);
    }
}

/// The pattern that lists a library: the wildcard below the library root.
pub open spec fn library_pattern(library_path: Seq<char>) -> Seq<char> {
    path_join(library_path, WILDCARD@)
}

/// Builds the pattern by which the entries of a library are listed, and
/// refuses a library path that makes no valid pattern.
pub fn library_glob_pattern(library_path: &str) -> (result: Result<String, RunError>)
    ensures
        glob_pattern_valid(library_pattern(library_path@)) ==> (result matches Ok(pattern)
            && pattern@ == library_pattern(library_path@)),
        !glob_pattern_valid(library_pattern(library_path@)) ==> (result matches Err(
            RunError::EnumerationError { path },
        ) && path@ == library_pattern(library_path@)),
{
    let pattern = join_paths(library_path, WILDCARD);
    if glob_pattern_compiles(pattern.as_str()) {
        Ok(pattern)
    } else {
        Err(RunError::EnumerationError { path: pattern })
    }
}

} // verus!
