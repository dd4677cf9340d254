//! Building the catalog from the files that a walk of the music directory
//! found.

use vstd::prelude::*;
use vstd::string::StrSliceExecFns;
use crate::library::{ordered, sorted, views, Library, TrackOrder};
use crate::text::chars_of;
use crate::track::{last_index, last_index_of, parts, split_path, track_at, Track, TrackView};

verus! {

/// The character with a capital letter of the Latin alphabet made small.
pub open spec fn lowered(c: char) -> char {
    if 'A' <= c && c <= 'Z' {
        ((c as u8) + 32) as char
    } else {
        c
    }
}

/// The text with its capital letters of the Latin alphabet made small.
pub open spec fn lowered_text(text: Seq<char>) -> Seq<char> {
    Seq::new(text.len(), |i: int| lowered(text[i]))
}

/// The extension of the file that a path names: what follows the last
/// `.` of its last part. A name that has no `.` behind its first
/// character has no extension.
pub open spec fn extension(path: Seq<char>) -> Option<Seq<char>> {
    let names = parts(path);
    if names.len() == 0 {
        None
    } else {
        let dot = last_index_of(names.last(), '.');
        if dot <= 0 {
            None
        } else {
            Some(names.last().skip(dot + 1))
        }
    }
}

/// Whether files with this extension hold audio that the player knows:
/// mp3, flac, ogg, wav, m4a or aac, in capital or small letters.
pub open spec fn is_audio_extension(ext: Seq<char>) -> bool {
    let small = lowered_text(ext);
    small == "mp3"@ || small == "flac"@ || small == "ogg"@ || small == "wav"@ || small == "m4a"@
        || small == "aac"@
}

/// Whether the path names a file that holds audio, by its extension.
pub open spec fn is_audio_file(path: Seq<char>) -> bool {
    match extension(path) {
        Some(ext) => is_audio_extension(ext),
        None => false,
    }
}

/// A file that a walk of the music directory came upon.
#[derive(Debug)]
pub struct FoundFile {
    /// The path under which the walk found the file.
    pub path: String,
    /// That path with links resolved, or the path itself where it could
    /// not be resolved.
    pub resolved: String,
}

/// The track that a found file is, if it is one: a file that is audio by
/// the name under which it was found, and that lies deep enough below
/// the root once links are resolved.
pub open spec fn track_of(file: FoundFile, root: Seq<char>) -> Option<TrackView> {
    if is_audio_file(file.path@) {
        track_at(file.resolved@, root)
    } else {
        None
    }
}

/// The tracks among the files, in the order of the files.
pub open spec fn tracks_among(files: Seq<FoundFile>, root: Seq<char>) -> Seq<TrackView>
    decreases files.len(),
{
    if files.len() == 0 {
        Seq::empty()
    } else {
        let before = tracks_among(files.drop_last(), root);
        match track_of(files.last(), root) {
            Some(track) => before.push(track),
            None => before,
        }
    }
}

/// The character with a capital letter of the Latin alphabet made small.
fn lower(c: char) -> (small: char)
    ensures
        small == lowered(c),
{
    if 'A' <= c && c <= 'Z' {
        ((c as u8) + 32) as char
    } else {
        c
    }
}

/// Whether the characters, capital letters made small, spell the word.
fn spells(chars: &Vec<char>, word: &str) -> (yes: bool)
    ensures
        yes == (lowered_text(chars@) == word@),
{
    let letters = chars_of(word);
    if letters.len() != chars.len() {
        return false;
    }
    let mut i: usize = 0;
    while i < chars.len()
        invariant
            i <= chars.len(),
            letters.len() == chars.len(),
            letters@ == word@,
            forall|k: int| 0 <= k < i ==> lowered(chars@[k]) == word@[k],
        decreases chars.len() - i,
    {
        if lower(chars[i]) != letters[i] {
            proof {
                assert(lowered_text(chars@)[i as int] != word@[i as int]);
            }
            return false;
        }
        i += 1;
    }
    proof {
        assert(lowered_text(chars@) =~= word@);
    }
    true
}

/// Whether files with this extension hold audio that the player knows.
pub fn audio_extension(ext: &str) -> (yes: bool)
    ensures
        yes == is_audio_extension(ext@),
{
    let chars = chars_of(ext);
    spells(&chars, "mp3") || spells(&chars, "flac") || spells(&chars, "ogg") || spells(
        &chars,
        "wav",
    ) || spells(&chars, "m4a") || spells(&chars, "aac")
}

/// Whether the path names a file that holds audio, by its extension.
pub fn audio_file(path: &str) -> (yes: bool)
    ensures
        yes == is_audio_file(path@),
{
    let names = split_path(path);
    if names.len() == 0 {
        return false;
    }
    let name: &str = names[names.len() - 1].as_str();
    let chars = chars_of(name);
    match last_index(&chars, '.') {
        Some(dot) => {
            if dot == 0 {
                false
            } else {
                let ext: &str = name.substring_char(dot + 1, chars.len());
                proof {
                    assert(ext@ == name@.skip(dot + 1));
                }
                audio_extension(ext)
            }
        },
        None => false,
    }
}

/// The catalog of the files that a walk of the music directory found:
/// the tracks among them, sorted by artist, then album, then title.
pub fn scan_library(files: &Vec<FoundFile>, music_root: &str) -> (library: Library)
    ensures
        library@ == sorted(TrackOrder::Catalog, tracks_among(files@, music_root@)),
        ordered(TrackOrder::Catalog, library@),
{
    let mut tracks: Vec<Track> = Vec::new();
    let mut i: usize = 0;
    proof {
        assert(views(tracks@) =~= Seq::<TrackView>::empty());
    }
    while i < files.len()
        invariant
            i <= files.len(),
            views(tracks@) == tracks_among(files@.take(i as int), music_root@),
        decreases files.len() - i,
    {
        proof {
            assert(files@.take(i + 1).drop_last() =~= files@.take(i as int));
            assert(files@.take(i + 1).last() == files[i as int]);
        }
        if audio_file(files[i].path.as_str()) {
            match Track::from_path(files[i].resolved.as_str(), music_root) {
                Some(track) => {
                    let ghost before = views(tracks@);
                    tracks.push(track);
                    proof {
                        assert(views(tracks@) =~= before.push(track@));
                    }
                },
                None => {},
            }
        }
        i += 1;
    }
    proof {
        assert(files@.take(files.len() as int) =~= files@);
    }
    Library::from_tracks(tracks)
}

} // verus!
