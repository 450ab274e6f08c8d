//! A snapshot of one entry of the library, taken when the library is listed.

use crate::paths::{base_name, extension_of, file_extension, file_name_text};
use crate::text::{lowercased, to_lowercase};
use vstd::prelude::*;

verus! {

/// One entry of the library with the attributes that classification reads.
#[derive(Clone, Debug, PartialEq, Eq)]
pub struct FileEntry {
    /// The full path of the entry.
    pub path: String,
    /// The base name: the last component of the path, empty if it has none.
    pub file_name: String,
    /// The base name in lower case.
    pub lower_name: String,
    /// The extension in lower case, without its full stop; empty if the
    /// base name has none.
    pub extension: String,
    /// Whether the entry was a directory when it was listed.
    pub is_dir: bool,
}

/// The mathematical value of a `FileEntry`.
pub struct FileEntryView {
    pub path: Seq<char>,
    pub file_name: Seq<char>,
    pub lower_name: Seq<char>,
    pub extension: Seq<char>,
    pub is_dir: bool,
}

impl FileEntryView {
    /// Whether the attributes are those that the path gives: the base name its
    /// last component, the lower-case name and extension derived from that.
    pub open spec fn is_snapshot(self) -> bool {
        self == entry_of(self.path, self.is_dir)
    }
}

impl View for FileEntry {
    type V = FileEntryView;

    open spec fn view(&self) -> FileEntryView {
        FileEntryView {
            path: self.path@,
            file_name: self.file_name@,
            lower_name: self.lower_name@,
            extension: self.extension@,
            is_dir: self.is_dir,
        }
    }
}

impl DeepView for FileEntry {
    type V = FileEntryView;

    open spec fn deep_view(&self) -> FileEntryView {
        self@
    }
}

/// The entry that a path and its kind give: the base name is the last
/// component of the path, and the extension is that of the base name.
pub open spec fn entry_of(path: Seq<char>, is_dir: bool) -> FileEntryView {
    FileEntryView {
        path,
        file_name: base_name(path),
        lower_name: lowercased(base_name(path)),
        extension: lowercased(extension_of(base_name(path))),
        is_dir,
    }
}

impl FileEntry {
    /// Takes the snapshot of an entry from its path and whether it is a
    /// directory.
    pub fn new(path: String, is_dir: bool) -> (entry: FileEntry)
        ensures
            entry@ == entry_of(path@, is_dir),
            entry@.is_snapshot(),
    {
        let file_name = file_name_text(path.as_str());
        let lower_name = to_lowercase(file_name.as_str());
        let extension = to_lowercase(file_extension(file_name.as_str()).as_str());
        FileEntry { path, file_name, lower_name, extension, is_dir }
    }
}

} // verus!
