//! The song catalogue: song names found among the file names of the music
//! directory, with a built-in entry where none is found.

use crate::sorting::{
    into_sorted_set, sorted_set, sorted_set_ascends, sorted_set_commutes, sorted_set_holds_keys,
    strictly_ascending, texts,
};
use crate::sorting::Keyed;
use crate::text::{has_extension, stem, str_eq, strip_extension};
use vstd::prelude::*;

verus! {

/// The name of the built-in song.
pub open spec fn default_song_name() -> Seq<char> {
    "Colorful Flowers"@
}

/// The extension of a song file, in lower case.
pub open spec fn song_extension() -> Seq<char> {
    ".mp3"@
}

/// Whether a file of this name holds a song: the name ends with `.mp3`, in
/// any case.
pub open spec fn is_song_file(file_name: Seq<char>) -> bool {
    has_extension(file_name, song_extension())
}

/// The song names among `files`, in the order of the files: each song file's
/// name without its extension.
pub open spec fn song_names(files: Seq<Seq<char>>) -> Seq<Seq<char>>
    decreases files.len(),
{
    if files.len() == 0 {
        Seq::empty()
    } else if is_song_file(files.last()) {
        song_names(files.drop_last()).push(stem(files.last(), song_extension()))
    } else {
        song_names(files.drop_last())
    }
}

/// The catalogue for a directory with these file names: the song names in
/// lexicographic order, each name once; or the built-in song alone where
/// there is none.
pub open spec fn song_catalogue(files: Seq<Seq<char>>) -> Seq<Seq<char>> {
    let found = song_names(files);
    sorted_set(
        if found.len() == 0 {
            seq![default_song_name()]
        } else {
            found
        },
    )
}

/// The directory songs are played from, with its trailing separator.
pub open spec fn music_directory() -> Seq<char> {
    "assets/music/"@
}

/// The name of the built-in song.
pub fn default_song() -> (song: String)
    ensures
        song@ == default_song_name(),
{
    "Colorful Flowers".to_owned()
}

/// The song name for a file name: `Some` of the name without its extension
/// for a song file, `None` for any other file.
pub fn song_name(file_name: &str) -> (name: Option<String>)
    ensures
        is_song_file(file_name@) ==> name is Some && name->0@ == stem(
            file_name@,
            song_extension(),
        ),
        !is_song_file(file_name@) ==> name is None,
{
    strip_extension(file_name, ".mp3")
}

/// Builds the song catalogue from the file names of the music directory.
pub fn load_songs(file_names: &Vec<String>) -> (songs: Vec<String>)
    ensures
        texts(songs@) == song_catalogue(texts(file_names@)),
        strictly_ascending(songs@),
        songs@.len() > 0,
{
    let mut found: Vec<String> = Vec::new();
    let mut i: usize = 0;
    while i < file_names.len()
        invariant
            i <= file_names.len(),
            texts(found@) == song_names(texts(file_names@).take(i as int)),
        decreases file_names.len() - i,
    {
        let ghost files = texts(file_names@);
        proof {
            assert(files.take(i + 1).drop_last() =~= files.take(i as int));
            assert(files.take(i + 1).last() == file_names@[i as int]@);
        }
        let ghost before = found@;
        match song_name(file_names[i].as_str()) {
            Some(name) => {
                found.push(name);
                assert(texts(found@) =~= texts(before).push(name@));
            },
            None => {},
        }
        i = i + 1;
    }
    proof {
        assert(texts(file_names@).take(i as int) =~= texts(file_names@));
    }
    if found.len() == 0 {
        found.push(default_song());
        assert(texts(found@) =~= seq![default_song_name()]);
    }
    let songs: Vec<String> = into_sorted_set(found);
    proof {
        sorted_set_commutes(found@, |s: String| s@);
        sorted_set_ascends(found@);
    }
    songs
}

/// The position of the song called `name` in the catalogue: the first entry
/// with that name, or `None` where the catalogue has no such entry.
pub fn find_song(songs: &Vec<String>, name: &str) -> (found: Option<usize>)
    ensures
        match found {
            Some(i) => i < songs.len() && songs@[i as int]@ == name@ && forall|j: int|
                0 <= j < i ==> songs@[j]@ != name@,
            None => forall|j: int| 0 <= j < songs.len() ==> songs@[j]@ != name@,
        },
{
    let mut i: usize = 0;
    while i < songs.len()
        invariant
            i <= songs.len(),
            forall|j: int| 0 <= j < i ==> songs@[j]@ != name@,
        decreases songs.len() - i,
    {
        if str_eq(songs[i].as_str(), name) {
            return Some(i);
        }
        i = i + 1;
    }
    None
}

/// The path of the file that holds the song called `name`.
pub fn song_path(name: &str) -> (path: String)
    ensures
        path@ == music_directory() + name@ + song_extension(),
{
    let mut path: String = "assets/music/".to_owned();
    path.append(name);
    path.append(".mp3");
    path
}

/// Every song name found is the name of a song file without its extension.
pub proof fn song_names_come_from_song_files(files: Seq<Seq<char>>, n: int)
    requires
        0 <= n < song_names(files).len(),
    ensures
        exists|k: int|
            0 <= k < files.len() && is_song_file(#[trigger] files[k]) && song_names(files)[n]
                == stem(files[k], song_extension()),
    decreases files.len(),
{
    let rest = files.drop_last();
    if n < song_names(rest).len() {
        song_names_come_from_song_files(rest, n);
        let k = choose|k: int|
            0 <= k < rest.len() && is_song_file(#[trigger] rest[k]) && song_names(rest)[n] == stem(
                rest[k],
                song_extension(),
            );
        assert(files[k] == rest[k]);
    } else {
        assert(files[files.len() - 1] == files.last());
    }
}

/// The name of every song file is found.
pub proof fn song_files_are_found(files: Seq<Seq<char>>, k: int)
    requires
        0 <= k < files.len(),
        is_song_file(files[k]),
    ensures
        song_names(files).contains(stem(files[k], song_extension())),
    decreases files.len(),
{
    let rest = files.drop_last();
    let all = song_names(files);
    if k < files.len() - 1 {
        assert(rest[k] == files[k]);
        song_files_are_found(rest, k);
        let n = choose|n: int|
            0 <= n < song_names(rest).len() && song_names(rest)[n] == stem(
                files[k],
                song_extension(),
            );
        assert(all[n] == song_names(rest)[n]);
    } else {
        assert(files.last() == files[k]);
        assert(all[all.len() - 1] == stem(files[k], song_extension()));
    }
}

/// The catalogue is never empty, its names strictly ascend, and each of them
/// is the name of a song file, or the built-in song where there is no song
/// file.
pub proof fn song_catalogue_is_sound(files: Seq<Seq<char>>, i: int)
    requires
        0 <= i < song_catalogue(files).len(),
    ensures
        song_catalogue(files).len() > 0,
        strictly_ascending(song_catalogue(files)),
        song_names(files).len() == 0 ==> song_catalogue(files)[i] == default_song_name(),
        song_names(files).len() > 0 ==> exists|k: int|
            0 <= k < files.len() && is_song_file(#[trigger] files[k]) && song_catalogue(files)[i]
                == stem(files[k], song_extension()),
{
    let found = song_names(files);
    let entry = song_catalogue(files)[i];
    if found.len() == 0 {
        let only = seq![default_song_name()];
        sorted_set_ascends(only);
        assert(only.contains(entry));
    } else {
        sorted_set_ascends(found);
        assert(found.contains(entry));
        let n = choose|n: int| 0 <= n < found.len() && found[n] == entry;
        song_names_come_from_song_files(files, n);
    }
}

/// The catalogue holds the name of every song file.
pub proof fn song_catalogue_is_complete(files: Seq<Seq<char>>, k: int)
    requires
        0 <= k < files.len(),
        is_song_file(files[k]),
    ensures
        song_catalogue(files).contains(stem(files[k], song_extension())),
{
    let found = song_names(files);
    let name = stem(files[k], song_extension());
    song_files_are_found(files, k);
    let n = choose|n: int| 0 <= n < found.len() && found[n] == name;
    sorted_set_holds_keys(found, n);
    let catalogue = sorted_set(found);
    let i = choose|i: int| 0 <= i < catalogue.len() && (#[trigger] catalogue[i]).key() == found[n].key();
    assert(catalogue[i] == name);
}

} // verus!
