//! Classification of library entries into those kept and those purged.

use crate::catalog::{
    build_keep_art_file_list, build_keep_extensions_list, keep_art_files, keep_extensions,
};
use crate::entry::{FileEntry, FileEntryView};
use crate::filters::{
    lemma_filter_again, lemma_filter_agrees, lemma_filter_both, lemma_filter_partition,
};
use crate::text::contains_text;
use vstd::prelude::*;

verus! {

/// Whether a base name denotes a resource fork: at least two characters, the
/// first a full stop and the second an underscore.
pub open spec fn is_resource_fork_name(name: Seq<char>) -> bool {
    name.len() >= 2 && name[0] == '.' && name[1] == '_'
}

/// Whether some entry has the given extension.
pub open spec fn occurs_in(entries: Seq<FileEntryView>, extension: Seq<char>) -> bool {
    exists|i: int| 0 <= i < entries.len() && (#[trigger] entries[i]).extension == extension
}

/// The kept extensions that occur among the entries, each once, in the order
/// in which the entries first show them.
pub open spec fn actual_extensions(entries: Seq<FileEntryView>, keep: Seq<Seq<char>>) -> Seq<
    Seq<char>,
>
    decreases entries.len(),
{
    if entries.len() == 0 {
        Seq::empty()
    } else {
        let earlier = actual_extensions(entries.drop_last(), keep);
        let extension = entries.last().extension;
        if !earlier.contains(extension) && keep.contains(extension) {
            earlier.push(extension)
        } else {
            earlier
        }
    }
}

/// Whether an entry is kept: a directory, a resource fork, an art file that
/// is kept, or a file with an extension that is kept.
pub open spec fn is_kept(
    entry: FileEntryView,
    art_files: Seq<Seq<char>>,
    extensions: Seq<Seq<char>>,
) -> bool {
    ||| entry.is_dir
    ||| is_resource_fork_name(entry.file_name)
    ||| art_files.contains(entry.lower_name)
    ||| extensions.contains(entry.extension)
}

/// Whether an entry is purged under a policy: it is not kept, given the art
/// files and the extensions that the policy keeps.
pub open spec fn is_purged(
    entry: FileEntryView,
    delete_art: bool,
    keep_other_audio: bool,
    keep_documents: bool,
) -> bool {
    !is_kept(entry, keep_art_files(delete_art), keep_extensions(keep_other_audio, keep_documents))
}

/// The entries of a library that are purged under a policy, in library order.
pub open spec fn purge_list(
    entries: Seq<FileEntryView>,
    delete_art: bool,
    keep_other_audio: bool,
    keep_documents: bool,
) -> Seq<FileEntryView> {
    entries.filter(
        |entry: FileEntryView| is_purged(entry, delete_art, keep_other_audio, keep_documents),
    )
}

/// The entries of a library that stay under a policy, in library order.
pub open spec fn kept_list(
    entries: Seq<FileEntryView>,
    delete_art: bool,
    keep_other_audio: bool,
    keep_documents: bool,
) -> Seq<FileEntryView> {
    entries.filter(
        |entry: FileEntryView| !is_purged(entry, delete_art, keep_other_audio, keep_documents),
    )
}

/// Determines whether a base name denotes a resource fork.
pub fn is_resource_fork(file_name: &str) -> (fork: bool)
    ensures
        fork == is_resource_fork_name(file_name@),
{
    if file_name.unicode_len() < 2 {
        return false;
    }
    file_name.get_char(0) == '.' && file_name.get_char(1) == '_'
}

/// Gets the extensions that are kept and that occur in the library: each
/// once, in the order in which the library first shows them.
pub fn get_actual_extensions(
    library_paths: &Vec<FileEntry>,
    keep_other_audio: bool,
    keep_documents: bool,
) -> (extensions: Vec<String>)
    ensures
        extensions.deep_view() == actual_extensions(
            library_paths.deep_view(),
            keep_extensions(keep_other_audio, keep_documents),
        ),
        extensions.deep_view().no_duplicates(),
        forall|extension: Seq<char>|
            (#[trigger] extensions.deep_view().contains(extension)) <==> (keep_extensions(
                keep_other_audio,
                keep_documents,
            ).contains(extension) && occurs_in(library_paths.deep_view(), extension)),
{
    proof {
        lemma_actual_extensions_intersect(
            library_paths.deep_view(),
            keep_extensions(keep_other_audio, keep_documents),
        );
    }
    let keep_extensions = build_keep_extensions_list(keep_other_audio, keep_documents);
    let mut extensions: Vec<String> = Vec::new();
    let mut i: usize = 0;
    while i < library_paths.len()
        invariant
            i <= library_paths.len(),
            extensions.deep_view() == actual_extensions(
                library_paths.deep_view().take(i as int),
                keep_extensions.deep_view(),
            ),
        decreases library_paths.len() - i,
    {
        let extension = &library_paths[i].extension;
        proof {
            let seen = library_paths.deep_view().take(i + 1);
            assert(seen.drop_last() =~= library_paths.deep_view().take(i as int));
            assert(seen.last().extension == extension@);
        }
        if !contains_text(&extensions, extension) && contains_text(&keep_extensions, extension) {
            let ghost before = extensions.deep_view();
            extensions.push(extension.clone());
            assert(extensions.deep_view() =~= before.push(extension@));
        }
        i += 1;
    }
    assert(library_paths.deep_view().take(i as int) =~= library_paths.deep_view());
    extensions
}

/// Decides whether one entry is kept, given the art file names and the
/// extensions that are kept.
pub fn keeps_entry(file: &FileEntry, art_file_list: &Vec<String>, extensions: &Vec<String>) -> (kept:
    bool)
    ensures
        kept == is_kept(file@, art_file_list.deep_view(), extensions.deep_view()),
{
    if file.is_dir {
        return true;
    }
    if is_resource_fork(file.file_name.as_str()) {
        return true;
    }
    if contains_text(art_file_list, &file.lower_name) {
        return true;
    }
    contains_text(extensions, &file.extension)
}

/// Builds the list of files to be purged: the entries of the library, in
/// library order, that are neither directories nor resource forks, nor art
/// files that are kept, nor files with an extension that is kept.
pub fn build_purge_file_list(
    library_paths: Vec<FileEntry>,
    delete_art: bool,
    keep_other_audio: bool,
    keep_documents: bool,
) -> (purge_file_list: Vec<FileEntry>)
    ensures
        purge_file_list.deep_view() == purge_list(
            library_paths.deep_view(),
            delete_art,
            keep_other_audio,
            keep_documents,
        ),
{
    let mut purge_file_list: Vec<FileEntry> = Vec::new();
    let art_file_list = build_keep_art_file_list(delete_art);
    let extensions = get_actual_extensions(&library_paths, keep_other_audio, keep_documents);
    let ghost entries = library_paths.deep_view();
    let ghost purged = |entry: FileEntryView|
        is_purged(entry, delete_art, keep_other_audio, keep_documents);
    for file in files: library_paths
        invariant
            files.seq().len() == entries.len(),
            forall|k: int| 0 <= k < entries.len() ==> files.seq()[k]@ == entries[k],
            purge_file_list.deep_view() == entries.take(files.index() as int).filter(purged),
            purged == |entry: FileEntryView|
                is_purged(entry, delete_art, keep_other_audio, keep_documents),
            art_file_list.deep_view() == keep_art_files(delete_art),
            extensions.deep_view() == actual_extensions(
                entries,
                keep_extensions(keep_other_audio, keep_documents),
            ),
    {
        proof {
            let seen = entries.take(files.index() + 1);
            assert(seen.drop_last() =~= entries.take(files.index() as int));
            assert(seen.last() == file@);
            seen.drop_last().lemma_filter_push(file@, purged);
            assert(seen =~= seen.drop_last().push(file@));
            lemma_observed_extensions_suffice(
                entries,
                keep_art_files(delete_art),
                keep_extensions(keep_other_audio, keep_documents),
                files.index() as int,
            );
        }
        if !keeps_entry(&file, &art_file_list, &extensions) {
            let ghost before = purge_file_list.deep_view();
            purge_file_list.push(file);
            assert(purge_file_list.deep_view() =~= before.push(file@));
        }
    }
    assert(entries.take(entries.len() as int) =~= entries);
    purge_file_list
}

/// A name denotes a resource fork exactly when it begins with a full stop
/// and an underscore; what follows the two does not matter.
pub proof fn lemma_resource_fork_prefix(name: Seq<char>, rest: Seq<char>)
    ensures
        is_resource_fork_name(name) <==> seq!['.', '_'].is_prefix_of(name),
        is_resource_fork_name(seq!['.', '_'] + rest),
        name.len() < 2 ==> !is_resource_fork_name(name),
{
    let mark = seq!['.', '_'];
    if is_resource_fork_name(name) {
        assert(name.subrange(0, 2) =~= mark);
    }
    if mark.is_prefix_of(name) {
        assert(name.subrange(0, 2)[0] == '.');
        assert(name.subrange(0, 2)[1] == '_');
    }
    assert((mark + rest)[0] == '.');
    assert((mark + rest)[1] == '_');
}

/// The extensions that `actual_extensions` gives are exactly the kept
/// extensions that occur among the entries, and none is given twice.
pub proof fn lemma_actual_extensions_intersect(entries: Seq<FileEntryView>, keep: Seq<Seq<char>>)
    ensures
        actual_extensions(entries, keep).no_duplicates(),
        forall|extension: Seq<char>|
            (#[trigger] actual_extensions(entries, keep).contains(extension)) <==> (keep.contains(
                extension,
            ) && occurs_in(entries, extension)),
    decreases entries.len(),
{
    let actual = actual_extensions(entries, keep);
    if entries.len() > 0 {
        let shorter = entries.drop_last();
        let earlier = actual_extensions(shorter, keep);
        let last = entries.last().extension;
        lemma_actual_extensions_intersect(shorter, keep);
        assert forall|extension: Seq<char>|
            (#[trigger] actual.contains(extension)) <==> (keep.contains(extension) && occurs_in(
                entries,
                extension,
            )) by {
            if actual.contains(extension) {
                if earlier.contains(extension) {
                    let i = choose|i: int|
                        0 <= i < shorter.len() && (#[trigger] shorter[i]).extension == extension;
                    assert(entries[i].extension == extension);
                } else {
                    let k = choose|k: int| 0 <= k < actual.len() && actual[k] == extension;
                    assert(k == earlier.len());
                    assert(entries[entries.len() - 1].extension == extension);
                }
            }
            if keep.contains(extension) && occurs_in(entries, extension) {
                let i = choose|i: int|
                    0 <= i < entries.len() && (#[trigger] entries[i]).extension == extension;
                if i < shorter.len() {
                    assert(shorter[i].extension == extension);
                    assert(occurs_in(shorter, extension));
                    assert(earlier.contains(extension));
                    let k = choose|k: int| 0 <= k < earlier.len() && earlier[k] == extension;
                    assert(actual[k] == extension);
                } else if earlier.contains(extension) {
                    let k = choose|k: int| 0 <= k < earlier.len() && earlier[k] == extension;
                    assert(actual[k] == extension);
                } else {
                    assert(actual[earlier.len() as int] == extension);
                }
            }
        }
    }
}

/// Narrowing the kept extensions to those that occur in the library changes
/// no decision: an entry of the library is kept under the narrowed
/// extensions exactly when it is kept under all of them.
pub proof fn lemma_observed_extensions_suffice(
    entries: Seq<FileEntryView>,
    art_files: Seq<Seq<char>>,
    keep: Seq<Seq<char>>,
    i: int,
)
    requires
        0 <= i < entries.len(),
    ensures
        is_kept(entries[i], art_files, actual_extensions(entries, keep)) == is_kept(
            entries[i],
            art_files,
            keep,
        ),
{
    lemma_actual_extensions_intersect(entries, keep);
    assert(occurs_in(entries, entries[i].extension));
}

/// Every entry falls on exactly one side: the purged and the kept entries
/// together are the entries of the library, each as often as it occurs there;
/// every purged entry is purged under the policy and no kept entry is.
pub proof fn lemma_keep_or_purge(
    entries: Seq<FileEntryView>,
    delete_art: bool,
    keep_other_audio: bool,
    keep_documents: bool,
)
    ensures
        ({
            let purged = purge_list(entries, delete_art, keep_other_audio, keep_documents);
            let kept = kept_list(entries, delete_art, keep_other_audio, keep_documents);
            &&& entries.to_multiset() == purged.to_multiset().add(kept.to_multiset())
            &&& entries.len() == purged.len() + kept.len()
            &&& forall|i: int|
                0 <= i < purged.len() ==> is_purged(
                    #[trigger] purged[i],
                    delete_art,
                    keep_other_audio,
                    keep_documents,
                )
            &&& forall|i: int|
                0 <= i < kept.len() ==> !is_purged(
                    #[trigger] kept[i],
                    delete_art,
                    keep_other_audio,
                    keep_documents,
                )
        }),
{
    let goes = |entry: FileEntryView|
        is_purged(entry, delete_art, keep_other_audio, keep_documents);
    let stays = |entry: FileEntryView|
        !is_purged(entry, delete_art, keep_other_audio, keep_documents);
    lemma_filter_partition(entries, goes);
    assert(stays == |entry: FileEntryView| !goes(entry));
    let purged = entries.filter(goes);
    let kept = entries.filter(stays);
    assert forall|i: int| 0 <= i < purged.len() implies goes(#[trigger] purged[i]) by {
        entries.lemma_filter_pred(goes, i);
    }
    assert forall|i: int| 0 <= i < kept.len() implies stays(#[trigger] kept[i]) by {
        entries.lemma_filter_pred(stays, i);
    }
}

/// Classifying again changes nothing: the purge list of a purge list is that
/// list, and once the purged entries are gone nothing is left to purge.
pub proof fn lemma_purge_idempotent(
    entries: Seq<FileEntryView>,
    delete_art: bool,
    keep_other_audio: bool,
    keep_documents: bool,
)
    ensures
        purge_list(
            purge_list(entries, delete_art, keep_other_audio, keep_documents),
            delete_art,
            keep_other_audio,
            keep_documents,
        ) == purge_list(entries, delete_art, keep_other_audio, keep_documents),
        purge_list(
            kept_list(entries, delete_art, keep_other_audio, keep_documents),
            delete_art,
            keep_other_audio,
            keep_documents,
        ) == Seq::<FileEntryView>::empty(),
{
    let goes = |entry: FileEntryView|
        is_purged(entry, delete_art, keep_other_audio, keep_documents);
    let stays = |entry: FileEntryView|
        !is_purged(entry, delete_art, keep_other_audio, keep_documents);
    lemma_filter_again(entries, goes, goes);
    lemma_filter_again(entries, stays, goes);
}

/// A library of which only some entries remain has as its purge list what
/// remains of the purge list: a run that was cut short can be run again.
pub proof fn lemma_purge_of_remainder(
    entries: Seq<FileEntryView>,
    remains: spec_fn(FileEntryView) -> bool,
    delete_art: bool,
    keep_other_audio: bool,
    keep_documents: bool,
)
    ensures
        purge_list(entries.filter(remains), delete_art, keep_other_audio, keep_documents)
            == purge_list(entries, delete_art, keep_other_audio, keep_documents).filter(remains),
        purge_list(entries.filter(remains), delete_art, keep_other_audio, keep_documents).len()
            <= purge_list(entries, delete_art, keep_other_audio, keep_documents).len(),
{
    let goes = |entry: FileEntryView|
        is_purged(entry, delete_art, keep_other_audio, keep_documents);
    lemma_filter_both(entries, remains, goes);
    entries.filter(goes).lemma_filter_len(remains);
}

/// Entries are classified one by one: the purge list of two libraries put
/// together is the two purge lists put together.
pub proof fn lemma_purge_list_entrywise(
    first: Seq<FileEntryView>,
    second: Seq<FileEntryView>,
    delete_art: bool,
    keep_other_audio: bool,
    keep_documents: bool,
)
    ensures
        purge_list(first + second, delete_art, keep_other_audio, keep_documents) == purge_list(
            first,
            delete_art,
            keep_other_audio,
            keep_documents,
        ) + purge_list(second, delete_art, keep_other_audio, keep_documents),
{
    let goes = |entry: FileEntryView|
        is_purged(entry, delete_art, keep_other_audio, keep_documents);
    Seq::filter_distributes_over_add(first, second, goes);
}

} // verus!
