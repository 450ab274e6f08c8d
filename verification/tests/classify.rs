use mlcp::classify::{
    build_purge_file_list, get_actual_extensions, is_resource_fork, keeps_entry,
};
use mlcp::entry::FileEntry;

// One file each for the music, audio, document and art categories.
fn get_test_library_paths() -> Vec<FileEntry> {
    vec![
        FileEntry::new(String::from("tests/library/album.jpg"), false),
        FileEntry::new(String::from("tests/library/audio.au"), false),
        FileEntry::new(String::from("tests/library/doc.txt"), false),
        FileEntry::new(String::from("tests/library/music.mp3"), false),
    ]
}

// Determine if a list of entries contains a specific file.
fn list_contains_file(paths: &Vec<FileEntry>, filename: &str) -> bool {
    for entry in paths {
        if std::path::Path::new(&entry.path).ends_with(filename) {
            return true;
        }
    }
    false
}

fn names(entries: &Vec<FileEntry>) -> Vec<String> {
    entries.iter().map(|entry| entry.file_name.clone()).collect()
}

#[test]
fn is_resource_fork_is_resource() {
    // Resource Forks start with "._"
    assert!(is_resource_fork(&"._ResourceFork"));
}

#[test]
fn is_resource_fork_is_not_resource() {
    // Resource Forks start with "._"
    assert!(!is_resource_fork(&"NotResourceFork"));
}

#[test]
fn is_resource_fork_edge_cases() {
    assert!(is_resource_fork("._anything"));
    assert!(is_resource_fork("._"));
    assert!(is_resource_fork("._\u{e9}t\u{e9}.mp3"));
    assert!(!is_resource_fork(""));
    assert!(!is_resource_fork("."));
    assert!(!is_resource_fork("_"));
    assert!(!is_resource_fork("_."));
    assert!(!is_resource_fork(".a_"));
    assert!(!is_resource_fork("a._"));
    assert!(!is_resource_fork(" ._x"));
    assert!(!is_resource_fork(".\u{ff3f}x"));
}

#[test]
fn is_resource_fork_multi_byte_names() {
    // One character of several bytes, then an underscore.
    assert!(!is_resource_fork("\u{e9}_"));
    assert!(!is_resource_fork("\u{1f3b5}_song"));
    // One character of several bytes alone.
    assert!(!is_resource_fork("\u{e9}"));
    assert!(!is_resource_fork("\u{1f3b5}"));
    // A full stop, then one character of several bytes.
    assert!(!is_resource_fork(".\u{e9}"));
}

#[test]
fn get_actual_extensions_keep_audio_and_docs() {
    let extensions = get_actual_extensions(&get_test_library_paths(), true, true);
    // We should get .au, .txt and .mp3 back; so three extensions
    assert_eq!(extensions.len(), 3);
    assert_eq!(extensions.contains(&String::from("mp3")), true);
    assert_eq!(extensions.contains(&String::from("au")), true);
    assert_eq!(extensions.contains(&String::from("txt")), true);
}

#[test]
fn get_actual_extensions_keep_audio_discard_docs() {
    let extensions = get_actual_extensions(&get_test_library_paths(), true, false);
    // We should get .au and .mp3 back; so two extensions
    assert_eq!(extensions.len(), 2);
    assert_eq!(extensions.contains(&String::from("mp3")), true);
    assert_eq!(extensions.contains(&String::from("au")), true);
}

#[test]
fn get_actual_extensions_discard_audio_keep_docs() {
    let extensions = get_actual_extensions(&get_test_library_paths(), false, true);
    // We should get .txt and .mp3 back; so two extensions
    assert_eq!(extensions.len(), 2);
    assert_eq!(extensions.contains(&String::from("mp3")), true);
    assert_eq!(extensions.contains(&String::from("txt")), true);
}

#[test]
fn get_actual_extensions_discard_audio_and_docs() {
    let extensions = get_actual_extensions(&get_test_library_paths(), false, false);
    // We should just get .mp3 back; so one extension
    assert_eq!(extensions.len(), 1);
    assert_eq!(extensions.contains(&String::from("mp3")), true);
}

#[test]
fn get_actual_extensions_in_order_of_first_occurrence() {
    let library = vec![
        FileEntry::new(String::from("lib/b.ogg"), false),
        FileEntry::new(String::from("lib/a.MP3"), false),
        FileEntry::new(String::from("lib/c.Ogg"), false),
        FileEntry::new(String::from("lib/d.jpg"), false),
        FileEntry::new(String::from("lib/e.mp3"), false),
        FileEntry::new(String::from("lib/f.flac"), false),
        FileEntry::new(String::from("lib/README"), false),
    ];
    let extensions = get_actual_extensions(&library, false, false);
    assert_eq!(extensions, vec!["ogg", "mp3", "flac"]);
}

#[test]
fn get_actual_extensions_of_empty_library() {
    let extensions = get_actual_extensions(&Vec::new(), true, true);
    assert_eq!(extensions.len(), 0);
}

#[test]
fn get_actual_extensions_lists_wmv_once() {
    let library = vec![
        FileEntry::new(String::from("lib/a.wmv"), false),
        FileEntry::new(String::from("lib/b.wmv"), false),
    ];
    assert_eq!(get_actual_extensions(&library, true, true), vec!["wmv"]);
}

#[test]
fn build_purge_file_list_keep_audio_art_and_docs() {
    let file_list = build_purge_file_list(get_test_library_paths(), false, true, true);
    // No files should be purged.
    assert_eq!(file_list.len(), 0);
}

#[test]
fn build_purge_file_list_discard_audio_art_and_docs() {
    let file_list = build_purge_file_list(get_test_library_paths(), true, false, false);
    // Three files should be purged (album.jpg, audio.au, doc.txt).
    assert_eq!(file_list.len(), 3);
    assert!(list_contains_file(&file_list, "album.jpg"));
    assert!(list_contains_file(&file_list, "audio.au"));
    assert!(list_contains_file(&file_list, "doc.txt"));
}

#[test]
fn build_purge_file_list_keep_audio_discard_art_and_docs() {
    let file_list = build_purge_file_list(get_test_library_paths(), true, true, false);
    // Two files should be purged (album.jpg, doc.txt).
    assert_eq!(file_list.len(), 2);
    assert!(list_contains_file(&file_list, "album.jpg"));
    assert!(list_contains_file(&file_list, "doc.txt"));
}

#[test]
fn build_purge_file_list_keep_art_discard_audio_and_docs() {
    let file_list = build_purge_file_list(get_test_library_paths(), false, false, false);
    // Two files should be purged (audio.au and doc.txt).
    assert_eq!(file_list.len(), 2);
    assert!(list_contains_file(&file_list, "audio.au"));
    assert!(list_contains_file(&file_list, "doc.txt"))
}

#[test]
fn build_purge_file_list_keep_docs_discard_audio_and_art() {
    let file_list = build_purge_file_list(get_test_library_paths(), true, false, true);
    // Two files should be purged (audio.au and album.jpg).
    assert_eq!(file_list.len(), 2);
    assert!(list_contains_file(&file_list, "audio.au"));
    assert!(list_contains_file(&file_list, "album.jpg"));
}

#[test]
fn build_purge_file_list_keeps_music_in_every_policy() {
    for delete_art in [false, true] {
        for keep_other_audio in [false, true] {
            for keep_documents in [false, true] {
                let file_list = build_purge_file_list(
                    get_test_library_paths(),
                    delete_art,
                    keep_other_audio,
                    keep_documents,
                );
                assert!(!list_contains_file(&file_list, "music.mp3"));
                assert_eq!(list_contains_file(&file_list, "album.jpg"), delete_art);
                assert_eq!(list_contains_file(&file_list, "audio.au"), !keep_other_audio);
                assert_eq!(list_contains_file(&file_list, "doc.txt"), !keep_documents);
            }
        }
    }
}

#[test]
fn build_purge_file_list_only_other_audio_kept() {
    // Art is deleted, documents are not kept, other audio is.
    let file_list = build_purge_file_list(get_test_library_paths(), true, true, false);
    assert_eq!(names(&file_list), vec!["album.jpg", "doc.txt"]);
}

#[test]
fn build_purge_file_list_keeps_library_order() {
    let library = vec![
        FileEntry::new(String::from("lib/z.nfo"), false),
        FileEntry::new(String::from("lib/a.mp3"), false),
        FileEntry::new(String::from("lib/m.log"), false),
        FileEntry::new(String::from("lib/b.cue"), false),
    ];
    let file_list = build_purge_file_list(library, false, false, false);
    assert_eq!(names(&file_list), vec!["z.nfo", "m.log", "b.cue"]);
}

#[test]
fn build_purge_file_list_skips_directories() {
    let library = vec![
        FileEntry::new(String::from("lib/artist"), true),
        FileEntry::new(String::from("lib/artist/album.d"), true),
        FileEntry::new(String::from("lib/artist/album.d/notes.nfo"), false),
    ];
    let file_list = build_purge_file_list(library, true, false, false);
    assert_eq!(names(&file_list), vec!["notes.nfo"]);
}

#[test]
fn build_purge_file_list_skips_resource_forks() {
    let library = vec![
        FileEntry::new(String::from("lib/._notes.nfo"), false),
        FileEntry::new(String::from("lib/._song.mp3"), false),
        FileEntry::new(String::from("lib/.notes.nfo"), false),
        FileEntry::new(String::from("lib/_.nfo"), false),
    ];
    let file_list = build_purge_file_list(library, true, false, false);
    assert_eq!(names(&file_list), vec![".notes.nfo", "_.nfo"]);
}

#[test]
fn build_purge_file_list_ignores_case() {
    let library = vec![
        FileEntry::new(String::from("lib/SONG.MP3"), false),
        FileEntry::new(String::from("lib/Cover.JPG"), false),
        FileEntry::new(String::from("lib/Folder.Png"), false),
        FileEntry::new(String::from("lib/BOOKLET.PDF"), false),
        FileEntry::new(String::from("lib/Scan.JPG"), false),
    ];
    let kept_art = build_purge_file_list(library.clone(), false, false, true);
    assert_eq!(names(&kept_art), vec!["Scan.JPG"]);
    let deleted_art = build_purge_file_list(library, true, false, false);
    assert_eq!(
        names(&deleted_art),
        vec!["Cover.JPG", "Folder.Png", "BOOKLET.PDF", "Scan.JPG"]
    );
}

#[test]
fn build_purge_file_list_art_needs_name_and_extension() {
    let library = vec![
        FileEntry::new(String::from("lib/cover.jpg"), false),
        FileEntry::new(String::from("lib/cover.gif"), false),
        FileEntry::new(String::from("lib/back.jpg"), false),
        FileEntry::new(String::from("lib/cover"), false),
        FileEntry::new(String::from("lib/albumartsmall.jpeg"), false),
    ];
    let file_list = build_purge_file_list(library, false, true, true);
    assert_eq!(names(&file_list), vec!["cover.gif", "back.jpg", "cover"]);
}

#[test]
fn build_purge_file_list_purges_files_without_extension() {
    let library = vec![
        FileEntry::new(String::from("lib/README"), false),
        FileEntry::new(String::from("lib/song.flac"), false),
        FileEntry::new(String::from("lib/trailing."), false),
    ];
    let file_list = build_purge_file_list(library, false, true, true);
    assert_eq!(names(&file_list), vec!["README", "trailing."]);
}

#[test]
fn build_purge_file_list_of_empty_library() {
    assert_eq!(build_purge_file_list(Vec::new(), true, false, false).len(), 0);
}

#[test]
fn classification_twice_gives_the_same_candidates() {
    for delete_art in [false, true] {
        for keep_other_audio in [false, true] {
            for keep_documents in [false, true] {
                let first = build_purge_file_list(
                    get_test_library_paths(),
                    delete_art,
                    keep_other_audio,
                    keep_documents,
                );
                let second = build_purge_file_list(
                    get_test_library_paths(),
                    delete_art,
                    keep_other_audio,
                    keep_documents,
                );
                assert_eq!(first, second);
                // The candidates of the candidates are the candidates.
                let again = build_purge_file_list(
                    first.clone(),
                    delete_art,
                    keep_other_audio,
                    keep_documents,
                );
                assert_eq!(again, first);
            }
        }
    }
}

#[test]
fn nothing_is_left_to_purge_after_a_purge() {
    for delete_art in [false, true] {
        for keep_other_audio in [false, true] {
            for keep_documents in [false, true] {
                let library = get_test_library_paths();
                let purged =
                    build_purge_file_list(library.clone(), delete_art, keep_other_audio, keep_documents);
                let left: Vec<FileEntry> =
                    library.into_iter().filter(|entry| !purged.contains(entry)).collect();
                let second = build_purge_file_list(left, delete_art, keep_other_audio, keep_documents);
                assert_eq!(second.len(), 0);
            }
        }
    }
}

#[test]
fn every_entry_is_kept_or_purged() {
    let library = vec![
        FileEntry::new(String::from("lib/a"), true),
        FileEntry::new(String::from("lib/a/._x.mp3"), false),
        FileEntry::new(String::from("lib/a/x.mp3"), false),
        FileEntry::new(String::from("lib/a/x.au"), false),
        FileEntry::new(String::from("lib/a/folder.jpg"), false),
        FileEntry::new(String::from("lib/a/x.pdf"), false),
        FileEntry::new(String::from("lib/a/x.nfo"), false),
    ];
    let art = mlcp::catalog::build_keep_art_file_list(false);
    let extensions = get_actual_extensions(&library, false, false);
    let purged = build_purge_file_list(library.clone(), false, false, false);
    let mut kept = 0;
    for entry in &library {
        let is_kept = keeps_entry(entry, &art, &extensions);
        assert_eq!(is_kept, !purged.contains(entry));
        if is_kept {
            kept += 1;
        }
    }
    assert_eq!(kept + purged.len(), library.len());
    assert_eq!(names(&purged), vec!["x.au", "x.pdf", "x.nfo"]);
}

#[test]
fn keeps_entry_reads_the_lists_it_is_given() {
    let entry = FileEntry::new(String::from("lib/notes.nfo"), false);
    let none: Vec<String> = Vec::new();
    assert!(!keeps_entry(&entry, &none, &none));
    assert!(keeps_entry(&entry, &none, &vec![String::from("nfo")]));
    assert!(keeps_entry(&entry, &vec![String::from("notes.nfo")], &none));
    assert!(!keeps_entry(&entry, &vec![String::from("nfo")], &vec![String::from("notes.nfo")]));
    let directory = FileEntry::new(String::from("lib/notes.nfo"), true);
    assert!(keeps_entry(&directory, &none, &none));
    let fork = FileEntry::new(String::from("lib/._notes.nfo"), false);
    assert!(keeps_entry(&fork, &none, &none));
}
