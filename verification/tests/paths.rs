use mlcp::entry::FileEntry;
use mlcp::error::RunError;
use mlcp::paths::{file_extension, file_name_text, library_glob_pattern, WILDCARD};
use mlcp::text::{contains_text, text_or_default};

#[test]
fn file_extension_is_the_text_after_the_last_full_stop() {
    assert_eq!(file_extension("music.mp3"), "mp3");
    assert_eq!(file_extension("archive.tar.gz"), "gz");
    assert_eq!(file_extension("Album.JPG"), "JPG");
    assert_eq!(file_extension("a.b.c.d"), "d");
    assert_eq!(file_extension("caf\u{e9}.\u{e9}t\u{e9}"), "\u{e9}t\u{e9}");
}

#[test]
fn file_extension_is_empty_without_a_full_stop() {
    assert_eq!(file_extension("README"), "");
    assert_eq!(file_extension(""), "");
    assert_eq!(file_extension("caf\u{e9}"), "");
}

#[test]
fn file_extension_at_the_edges_of_a_name() {
    assert_eq!(file_extension("trailing."), "");
    assert_eq!(file_extension("."), "");
    assert_eq!(file_extension(".."), "");
    assert_eq!(file_extension(".hidden"), "hidden");
    assert_eq!(file_extension("._song.mp3"), "mp3");
}

#[test]
fn file_name_text_is_the_last_component() {
    assert_eq!(file_name_text("tests/library/music.mp3"), "music.mp3");
    assert_eq!(file_name_text("music.mp3"), "music.mp3");
    assert_eq!(file_name_text("/abs/dir/"), "dir");
    assert_eq!(file_name_text("a/b/._fork"), "._fork");
}

#[test]
fn file_name_text_is_empty_where_there_is_no_name() {
    assert_eq!(file_name_text(""), "");
    assert_eq!(file_name_text("/"), "");
    assert_eq!(file_name_text("a/.."), "");
}

#[test]
fn text_or_default_gives_the_text_or_the_default() {
    assert_eq!(text_or_default(Some(String::from("x.au")), ""), "x.au");
    assert_eq!(text_or_default(Some(String::new()), "none"), "");
    assert_eq!(text_or_default(None, ""), "");
    assert_eq!(text_or_default(None, "none"), "none");
}

#[test]
fn contains_text_finds_equal_texts_only() {
    let list = vec![String::from("mp3"), String::from("ogg")];
    assert!(contains_text(&list, &String::from("mp3")));
    assert!(contains_text(&list, &String::from("ogg")));
    assert!(!contains_text(&list, &String::from("MP3")));
    assert!(!contains_text(&list, &String::from("mp")));
    assert!(!contains_text(&list, &String::new()));
    assert!(!contains_text(&Vec::new(), &String::from("mp3")));
}

#[test]
fn file_entry_derives_its_attributes() {
    let entry = FileEntry::new(String::from("tests/library/Album.JPG"), false);
    assert_eq!(entry.path, "tests/library/Album.JPG");
    assert_eq!(entry.file_name, "Album.JPG");
    assert_eq!(entry.lower_name, "album.jpg");
    assert_eq!(entry.extension, "jpg");
    assert_eq!(entry.is_dir, false);
}

#[test]
fn file_entry_of_a_directory() {
    let entry = FileEntry::new(String::from("tests/Library.D/"), true);
    assert_eq!(entry.path, "tests/Library.D/");
    assert_eq!(entry.file_name, "Library.D");
    assert_eq!(entry.lower_name, "library.d");
    assert_eq!(entry.extension, "d");
    assert_eq!(entry.is_dir, true);
}

#[test]
fn file_entry_without_extension_or_name() {
    let plain = FileEntry::new(String::from("lib/README"), false);
    assert_eq!(plain.file_name, "README");
    assert_eq!(plain.lower_name, "readme");
    assert_eq!(plain.extension, "");
    let nameless = FileEntry::new(String::from("lib/.."), true);
    assert_eq!(nameless.file_name, "");
    assert_eq!(nameless.lower_name, "");
    assert_eq!(nameless.extension, "");
}

#[test]
fn file_entry_lowers_letters_beyond_ascii() {
    let entry = FileEntry::new(String::from("lib/\u{c9}T\u{c9}.\u{d6}GG"), false);
    assert_eq!(entry.file_name, "\u{c9}T\u{c9}.\u{d6}GG");
    assert_eq!(entry.lower_name, "\u{e9}t\u{e9}.\u{f6}gg");
    assert_eq!(entry.extension, "\u{f6}gg");
}

#[test]
fn library_glob_pattern_is_the_wildcard_below_the_library() {
    assert_eq!(WILDCARD, "**/*");
    let expected = std::path::Path::new("tests/library").join("**/*");
    assert_eq!(
        library_glob_pattern("tests/library"),
        Ok(String::from(expected.to_str().unwrap()))
    );
    let pattern = library_glob_pattern("tests/library").unwrap();
    let compiled = glob::Pattern::new(&pattern).unwrap();
    let options = glob::MatchOptions {
        case_sensitive: true,
        require_literal_separator: true,
        require_literal_leading_dot: false,
    };
    for path in [
        "tests/library/music.mp3",
        "tests/library/README",
        "tests/library/.hidden",
        "tests/library/sub/x.au",
        "tests/library/a/b/c/d.txt",
    ] {
        let path = std::path::Path::new(path);
        assert!(compiled.matches_path_with(path, options));
    }
    assert!(!compiled.matches_path_with(std::path::Path::new("tests/other/x.au"), options));
}

#[test]
fn library_glob_pattern_of_the_current_directory() {
    assert_eq!(library_glob_pattern(""), Ok(String::from("**/*")));
}

#[test]
fn library_glob_pattern_refuses_a_malformed_path() {
    let unclosed = String::from(std::path::Path::new("music[").join("**/*").to_str().unwrap());
    assert_eq!(
        library_glob_pattern("music["),
        Err(RunError::EnumerationError { path: unclosed })
    );
    let stars = String::from(std::path::Path::new("a***").join("**/*").to_str().unwrap());
    assert_eq!(library_glob_pattern("a***"), Err(RunError::EnumerationError { path: stars }));
    assert!(library_glob_pattern("music[1]").is_ok());
}
