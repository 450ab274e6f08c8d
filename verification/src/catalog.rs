//! The static classification tables and the keep lists built from them.

use vstd::prelude::*;

verus! {

/// File extensions typically associated with music and album files.
pub const MUSIC_FILE_TYPES: [&'static str; 17] = [
    "aac", "aiff", "ape", "dff", "dsd", "dsf", "dxd", "flac", "iso", "m4a", "m4p", "mp3", "oga",
    "ogg", "wav", "wma", "wmv",
];

/// File extensions typically associated with audio that is not music.
pub const AUDIO_FILE_TYPES: [&'static str; 28] = [
    "3gp", "aa", "aax", "act", "amr", "au", "awb", "dct", "dss", "dvf", "gsm", "iklax", "ivs",
    "m4b", "mmf", "mpc", "msv", "mogg", "opus", "ra", "rm", "raw", "sln", "tta", "vox", "wmv",
    "wv", "webm",
];

/// Common document and booklet file extensions.
pub const DOCUMENT_FILE_TYPES: [&'static str; 2] = ["txt", "pdf"];

/// Base names of folder-level album art.
pub const ALBUM_ART_FILENAMES: [&'static str; 9] = [
    "album", "cover", "small_cover", "large_cover", "folder", "thumb", "albumartsmall",
    "albumartmedium", "albumartlarge",
];

/// Extensions of folder-level album art.
pub const ALBUM_ART_EXTENSIONS: [&'static str; 3] = ["jpg", "jpeg", "png"];

/// The texts of a table, in table order.
pub open spec fn table_texts(table: Seq<&'static str>) -> Seq<Seq<char>> {
    Seq::new(table.len(), |i: int| table[i]@)
}

pub open spec fn music_types() -> Seq<Seq<char>> {
    table_texts(MUSIC_FILE_TYPES@)
}

pub open spec fn audio_types() -> Seq<Seq<char>> {
    table_texts(AUDIO_FILE_TYPES@)
}

pub open spec fn document_types() -> Seq<Seq<char>> {
    table_texts(DOCUMENT_FILE_TYPES@)
}

pub open spec fn art_names() -> Seq<Seq<char>> {
    table_texts(ALBUM_ART_FILENAMES@)
}

pub open spec fn art_extensions() -> Seq<Seq<char>> {
    table_texts(ALBUM_ART_EXTENSIONS@)
}

/// The extensions kept under a policy: the music types always, then the other
/// audio types if they are kept, then the document types if they are kept.
pub open spec fn keep_extensions(keep_other_audio: bool, keep_documents: bool) -> Seq<Seq<char>> {
    music_types() + (if keep_other_audio {
        audio_types()
    } else {
        Seq::empty()
    }) + (if keep_documents {
        document_types()
    } else {
        Seq::empty()
    })
}

/// The name of an art file: base name, a full stop, extension.
pub open spec fn art_file_name(name: Seq<char>, extension: Seq<char>) -> Seq<char> {
    name + seq!['.'] + extension
}

/// The art file names kept: none when art is deleted, else every base name
/// with every extension, base names outermost.
pub open spec fn keep_art_files(delete_art: bool) -> Seq<Seq<char>> {
    if delete_art {
        Seq::empty()
    } else {
        Seq::new(
            art_names().len() * art_extensions().len(),
            |k: int|
                art_file_name(
                    art_names()[k / art_extensions().len() as int],
                    art_extensions()[k % art_extensions().len() as int],
                ),
        )
    }
}

fn append_table<const N: usize>(list: &mut Vec<String>, table: &[&'static str; N])
    ensures
        final(list).deep_view() == old(list).deep_view() + table_texts(table@),
{
    let mut i: usize = 0;
    while i < N
        invariant
            i <= N,
            list.len() == old(list).len() + i,
            forall|k: int| 0 <= k < old(list).len() ==> list[k] == old(list)[k],
            forall|k: int|
                old(list).len() <= k < list.len() ==> list[k]@ == table[k - old(list).len()]@,
        decreases N - i,
    {
        list.push(String::from_str(table[i]));
        i += 1;
    }
    assert(list.deep_view() =~= old(list).deep_view() + table_texts(table@));
}

/// Builds the list of file extensions that are kept.
pub fn build_keep_extensions_list(keep_other_audio: bool, keep_documents: bool) -> (list: Vec<
    String,
>)
    ensures
        list.deep_view() == keep_extensions(keep_other_audio, keep_documents),
        list.len() == MUSIC_FILE_TYPES@.len() + (if keep_other_audio {
            AUDIO_FILE_TYPES@.len()
        } else {
            0
        }) + (if keep_documents {
            DOCUMENT_FILE_TYPES@.len()
        } else {
            0
        }),
{
    let mut list: Vec<String> = Vec::new();
    append_table(&mut list, &MUSIC_FILE_TYPES);
    if keep_other_audio {
        append_table(&mut list, &AUDIO_FILE_TYPES);
    }
    if keep_documents {
        append_table(&mut list, &DOCUMENT_FILE_TYPES);
    }
    assert(list.deep_view() =~= keep_extensions(keep_other_audio, keep_documents));
    list
}

/// Builds the list of album art file names that are kept.
pub fn build_keep_art_file_list(delete_art: bool) -> (list: Vec<String>)
    ensures
        list.deep_view() == keep_art_files(delete_art),
        list.len() == (if delete_art {
            0
        } else {
            ALBUM_ART_FILENAMES@.len() * ALBUM_ART_EXTENSIONS@.len()
        }),
{
    let mut list: Vec<String> = Vec::new();
    if !delete_art {
        let mut i: usize = 0;
        while i < 9
            invariant
                i <= 9,
                list.len() == i * 3,
                forall|k: int|
                    0 <= k < list.len() ==> list[k]@ == art_file_name(
                        art_names()[k / 3],
                        art_extensions()[k % 3],
                    ),
            decreases 9 - i,
        {
            let mut j: usize = 0;
            while j < 3
                invariant
                    i < 9,
                    j <= 3,
                    list.len() == i * 3 + j,
                    forall|k: int|
                        0 <= k < list.len() ==> list[k]@ == art_file_name(
                            art_names()[k / 3],
                            art_extensions()[k % 3],
                        ),
                decreases 3 - j,
            {
                proof {
                    reveal_strlit(".");
                }
                let art_file = String::from_str(ALBUM_ART_FILENAMES[i]).concat(".").concat(
                    ALBUM_ART_EXTENSIONS[j],
                );
                assert(art_file@ =~= art_file_name(art_names()[i as int], art_extensions()[j as int]));
                list.push(art_file);
                j += 1;
            }
            i += 1;
        }
    }
    assert(list.deep_view() =~= keep_art_files(delete_art));
    list
}

/// Without the other audio types, no extension is listed twice.
pub proof fn lemma_keep_extensions_distinct(keep_documents: bool)
    ensures
        keep_extensions(false, keep_documents).no_duplicates(),
{
    reveal_strlit("aac");
    reveal_strlit("aiff");
    reveal_strlit("ape");
    reveal_strlit("dff");
    reveal_strlit("dsd");
    reveal_strlit("dsf");
    reveal_strlit("dxd");
    reveal_strlit("flac");
    reveal_strlit("iso");
    reveal_strlit("m4a");
    reveal_strlit("m4p");
    reveal_strlit("mp3");
    reveal_strlit("oga");
    reveal_strlit("ogg");
    reveal_strlit("wav");
    reveal_strlit("wma");
    reveal_strlit("wmv");
    reveal_strlit("txt");
    reveal_strlit("pdf");
    let list = keep_extensions(false, keep_documents);
    assert(list[0] =~= seq!['a', 'a', 'c']);
    assert(list[1] =~= seq!['a', 'i', 'f', 'f']);
    assert(list[2] =~= seq!['a', 'p', 'e']);
    assert(list[3] =~= seq!['d', 'f', 'f']);
    assert(list[4] =~= seq!['d', 's', 'd']);
    assert(list[5] =~= seq!['d', 's', 'f']);
    assert(list[6] =~= seq!['d', 'x', 'd']);
    assert(list[7] =~= seq!['f', 'l', 'a', 'c']);
    assert(list[8] =~= seq!['i', 's', 'o']);
    assert(list[9] =~= seq!['m', '4', 'a']);
    assert(list[10] =~= seq!['m', '4', 'p']);
    assert(list[11] =~= seq!['m', 'p', '3']);
    assert(list[12] =~= seq!['o', 'g', 'a']);
    assert(list[13] =~= seq!['o', 'g', 'g']);
    assert(list[14] =~= seq!['w', 'a', 'v']);
    assert(list[15] =~= seq!['w', 'm', 'a']);
    assert(list[16] =~= seq!['w', 'm', 'v']);
    assert(keep_documents ==> list[17] =~= seq!['t', 'x', 't']);
    assert(keep_documents ==> list[18] =~= seq!['p', 'd', 'f']);
}

/// With the other audio types kept, one extension is listed twice: the last
/// music type is also an audio type.
pub proof fn lemma_keep_extensions_repeat(keep_documents: bool)
    ensures
        !keep_extensions(true, keep_documents).no_duplicates(),
{
    let list = keep_extensions(true, keep_documents);
    assert(list[16] == list[42]);
}

} // verus!
