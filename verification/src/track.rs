//! Tracks of the music library.

use vstd::prelude::*;
use vstd::string::StringExecFns;
use vstd::string::StrSliceExecFns;
use crate::text::chars_of;

verus! {

/// One playable file of the library. A track is never changed once it is
/// made; within a catalog its `path` identifies it.
#[derive(Debug)]
pub struct Track {
    /// Where the file lies below the music root, with `/` between the parts.
    pub path: String,
    pub title: String,
    pub artist: String,
    pub album: String,
}

/// What a track says, as sequences of characters.
pub struct TrackView {
    pub path: Seq<char>,
    pub title: Seq<char>,
    pub artist: Seq<char>,
    pub album: Seq<char>,
}

impl View for Track {
    type V = TrackView;

    open spec fn view(&self) -> TrackView {
        TrackView {
            path: self.path@,
            title: self.title@,
            artist: self.artist@,
            album: self.album@,
        }
    }
}

impl Clone for Track {
    fn clone(&self) -> (copy: Self)
        ensures
            copy == *self,
    {
        Track {
            path: self.path.clone(),
            title: self.title.clone(),
            artist: self.artist.clone(),
            album: self.album.clone(),
        }
    }
}

/// The view of a track that may be absent.
pub open spec fn view_of(track: Option<Track>) -> Option<TrackView> {
    match track {
        Some(t) => Some(t@),
        None => None,
    }
}

/// Where the last part of a path begins: behind its last `/`, or at 0 if
/// it has none. For a path that ends in `/` this is its length.
pub open spec fn last_part_start(path: Seq<char>) -> int
    decreases path.len(),
{
    if path.len() == 0 {
        0
    } else if path.last() == '/' {
        path.len() as int
    } else {
        last_part_start(path.drop_last())
    }
}

/// The parts of a path: its longest runs of characters that hold no `/`,
/// from left to right.
pub open spec fn parts(path: Seq<char>) -> Seq<Seq<char>>
    decreases path.len(),
{
    if path.len() == 0 {
        Seq::empty()
    } else if path.last() == '/' {
        parts(path.drop_last())
    } else {
        let start = last_part_start(path);
        if 0 <= start < path.len() {
            parts(path.take(start)).push(path.skip(start))
        } else {
            Seq::empty()
        }
    }
}

/// The last part of a path begins within the path, behind a `/` or at
/// the start, and holds no `/`.
pub proof fn last_part_is_a_run(path: Seq<char>)
    ensures
        0 <= last_part_start(path) <= path.len(),
        last_part_start(path) > 0 ==> path[last_part_start(path) - 1] == '/',
        forall|k: int| last_part_start(path) <= k < path.len() ==> path[k] != '/',
    decreases path.len(),
{
    if path.len() > 0 && path.last() != '/' {
        let shorter = path.drop_last();
        last_part_is_a_run(shorter);
        assert forall|k: int| last_part_start(path) <= k < path.len() implies path[k] != '/' by {
            if k < shorter.len() {
                assert(shorter[k] == path[k]);
            }
        }
        if last_part_start(path) > 0 {
            assert(shorter[last_part_start(path) - 1] == path[last_part_start(path) - 1]);
        }
    }
}

/// Every part of a path holds a character and no `/`.
pub proof fn parts_are_runs(path: Seq<char>)
    ensures
        forall|i: int|
            0 <= i < parts(path).len() ==> (#[trigger] parts(path)[i]).len() > 0 && !parts(
                path,
            )[i].contains('/'),
    decreases path.len(),
{
    if path.len() == 0 {
    } else if path.last() == '/' {
        parts_are_runs(path.drop_last());
        assert(parts(path) == parts(path.drop_last()));
    } else {
        let start = last_part_start(path);
        last_part_is_a_run(path);
        assert(start < path.len());
        let before = parts(path.take(start));
        parts_are_runs(path.take(start));
        let last = path.skip(start);
        if last.contains('/') {
            let k = choose|k: int| 0 <= k < last.len() && last[k] == '/';
            assert(path[start + k] == '/');
        }
        assert(parts(path) == before.push(last));
        assert forall|i: int| 0 <= i < parts(path).len() implies (#[trigger] parts(path)[i]).len()
            > 0 && !parts(path)[i].contains('/') by {
            if i < before.len() {
                assert(parts(path)[i] == before[i]);
            }
        }
    }
}

/// Whether `full` names a place at or below `root`: it begins with `root`,
/// and `root` ends where a part of `full` ends.
pub open spec fn lies_below(full: Seq<char>, root: Seq<char>) -> bool {
    &&& root.len() <= full.len()
    &&& full.take(root.len() as int) == root
    &&& (root.len() == 0 || root.len() == full.len() || root.last() == '/' || full[root.len() as int]
        == '/')
}

/// Whether a character separates the parts of a path on some system.
pub open spec fn is_separator(c: char) -> bool {
    c == '/' || c == '\\'
}

/// The path without the separators it begins with.
pub open spec fn without_leading_separators(path: Seq<char>) -> Seq<char>
    decreases path.len(),
{
    if path.len() > 0 && is_separator(path[0]) {
        without_leading_separators(path.drop_first())
    } else {
        path
    }
}

/// The path with `/` in place of every `\`.
pub open spec fn with_forward_slashes(path: Seq<char>) -> Seq<char> {
    Seq::new(
        path.len(),
        |i: int|
            if path[i] == '\\' {
                '/'
            } else {
                path[i]
            },
    )
}

/// The place of the last `c` in `s`, or -1 if `s` holds none.
pub open spec fn last_index_of(s: Seq<char>, c: char) -> int
    decreases s.len(),
{
    if s.len() == 0 {
        -1
    } else if s.last() == c {
        s.len() - 1
    } else {
        last_index_of(s.drop_last(), c)
    }
}

/// A file name without its extension: what stands before its last `.`,
/// or all of it if it holds none.
pub open spec fn stem(name: Seq<char>) -> Seq<char> {
    let dot = last_index_of(name, '.');
    if dot < 0 {
        name
    } else {
        name.take(dot)
    }
}

/// The track that the file at `full` is, in a library rooted at `root`.
/// A track lies at least two directories below the root: the last three
/// parts of its path are artist, album and file name.
pub open spec fn track_at(full: Seq<char>, root: Seq<char>) -> Option<TrackView> {
    if !lies_below(full, root) {
        None
    } else {
        let relative = full.skip(root.len() as int);
        let names = parts(relative);
        if names.len() < 3 {
            None
        } else {
            Some(
                TrackView {
                    path: with_forward_slashes(without_leading_separators(relative)),
                    title: stem(names[names.len() - 1]),
                    artist: names[names.len() - 3],
                    album: names[names.len() - 2],
                },
            )
        }
    }
}

/// Whether the characters `full` name a place at or below `root`.
fn below(full: &Vec<char>, root: &Vec<char>) -> (yes: bool)
    ensures
        yes == lies_below(full@, root@),
{
    if root.len() > full.len() {
        return false;
    }
    let mut i: usize = 0;
    while i < root.len()
        invariant
            i <= root.len() <= full.len(),
            full@.take(i as int) == root@.take(i as int),
        decreases root.len() - i,
    {
        if full[i] != root[i] {
            proof {
                let n = root.len() as int;
                assert(full@.take(n)[i as int] == full@[i as int]);
            }
            return false;
        }
        proof {
            assert(full@.take(i + 1) == full@.take(i as int).push(full@[i as int]));
            assert(root@.take(i + 1) == root@.take(i as int).push(root@[i as int]));
        }
        i += 1;
    }
    proof {
        assert(root@.take(root.len() as int) == root@);
    }
    root.len() == 0 || root.len() == full.len() || root[root.len() - 1] == '/' || full[root.len()]
        == '/'
}

/// The parts of a path, from left to right.
pub fn split_path(path: &str) -> (names: Vec<String>)
    ensures
        names.len() == parts(path@).len(),
        forall|i: int| 0 <= i < names.len() ==> (#[trigger] names[i])@ == parts(path@)[i],
{
    let chars = chars_of(path);
    let n: usize = chars.len();
    let mut names: Vec<String> = Vec::new();
    let mut start: usize = 0;
    let mut i: usize = 0;
    while i < n
        invariant
            chars@ == path@,
            n == chars.len(),
            start <= i <= n,
            start == last_part_start(path@.take(i as int)),
            names.len() == parts(path@.take(start as int)).len(),
            forall|k: int|
                0 <= k < names.len() ==> (#[trigger] names[k])@ == parts(
                    path@.take(start as int),
                )[k],
        decreases n - i,
    {
        proof {
            assert(path@.take(i + 1).drop_last() == path@.take(i as int));
            assert(path@.take(i + 1).last() == path@[i as int]);
        }
        if chars[i] == '/' {
            if start < i {
                let name = String::from_str(path.substring_char(start, i));
                proof {
                    lemma_parts_of_open_run(path@.take(i as int), start as int);
                    assert(path@.take(i as int).take(start as int) == path@.take(start as int));
                    assert(path@.take(i as int).skip(start as int) == path@.subrange(
                        start as int,
                        i as int,
                    ));
                }
                names.push(name);
            }
            start = i + 1;
        }
        i += 1;
    }
    proof {
        assert(path@.take(n as int) == path@);
    }
    if start < n {
        let name = String::from_str(path.substring_char(start, n));
        proof {
            lemma_parts_of_open_run(path@, start as int);
            assert(path@.skip(start as int) == path@.subrange(start as int, n as int));
        }
        names.push(name);
    }
    names
}

/// A path whose last part is still open at `start` has the parts of what
/// stands before `start`, and then that last part.
proof fn lemma_parts_of_open_run(path: Seq<char>, start: int)
    requires
        0 <= start < path.len(),
        start == last_part_start(path),
    ensures
        parts(path) == parts(path.take(start)).push(path.skip(start)),
{
    if path.last() == '/' {
        assert(last_part_start(path) == path.len());
    }
}

/// Whether the path `full` names a place at or below the path `root`.
pub fn path_lies_below(full: &str, root: &str) -> (yes: bool)
    ensures
        yes == lies_below(full@, root@),
{
    let full_chars = chars_of(full);
    let root_chars = chars_of(root);
    below(&full_chars, &root_chars)
}

/// The number of separators that a path begins with.
fn count_leading_separators(chars: &Vec<char>) -> (count: usize)
    ensures
        count <= chars.len(),
        without_leading_separators(chars@) == chars@.skip(count as int),
{
    let mut count: usize = 0;
    proof {
        assert(chars@.skip(0) == chars@);
    }
    while count < chars.len() && (chars[count] == '/' || chars[count] == '\\')
        invariant
            count <= chars.len(),
            without_leading_separators(chars@) == without_leading_separators(
                chars@.skip(count as int),
            ),
        decreases chars.len() - count,
    {
        proof {
            assert(chars@.skip(count as int).drop_first() == chars@.skip(count + 1));
        }
        count += 1;
    }
    count
}

/// The path with `/` in place of every `\`.
fn forward_slashed(path: &str) -> (out: String)
    ensures
        out@ == with_forward_slashes(path@),
{
    let chars = chars_of(path);
    let n: usize = chars.len();
    let mut out = String::new();
    let mut start: usize = 0;
    let mut i: usize = 0;
    while i < n
        invariant
            chars@ == path@,
            n == chars.len(),
            start <= i <= n,
            out@ == with_forward_slashes(path@.take(start as int)),
            forall|k: int| start <= k < i ==> path@[k] != '\\',
        decreases n - i,
    {
        if chars[i] == '\\' {
            out.append(path.substring_char(start, i));
            out.append("/");
            proof {
                reveal_strlit("/");
                assert(out@ == with_forward_slashes(path@.take(i + 1)));
            }
            start = i + 1;
        }
        i += 1;
    }
    out.append(path.substring_char(start, n));
    proof {
        assert(path@.take(n as int) == path@);
        assert(out@ == with_forward_slashes(path@));
    }
    out
}

/// The place of the last `c` among the characters, if there is one.
pub fn last_index(chars: &Vec<char>, c: char) -> (found: Option<usize>)
    ensures
        match found {
            Some(i) => i == last_index_of(chars@, c) && i < chars.len(),
            None => last_index_of(chars@, c) == -1,
        },
{
    let mut end: usize = chars.len();
    proof {
        assert(chars@.take(end as int) == chars@);
    }
    while end > 0 && chars[end - 1] != c
        invariant
            end <= chars.len(),
            last_index_of(chars@, c) == last_index_of(chars@.take(end as int), c),
        decreases end,
    {
        proof {
            assert(chars@.take(end as int).drop_last() == chars@.take(end - 1));
        }
        end -= 1;
    }
    if end == 0 {
        None
    } else {
        proof {
            assert(chars@.take(end as int).last() == c);
        }
        Some(end - 1)
    }
}

/// A file name without its extension.
fn stem_of(name: &str) -> (out: String)
    ensures
        out@ == stem(name@),
{
    let chars = chars_of(name);
    match last_index(&chars, '.') {
        Some(dot) => {
            proof {
                assert(name@.subrange(0, dot as int) == name@.take(dot as int));
            }
            String::from_str(name.substring_char(0, dot))
        },
        None => String::from_str(name),
    }
}

impl Track {
    /// The track that the file at `full_path` is, in a library rooted at
    /// `music_root`; `None` for a file that does not lie at least two
    /// directories below the root. Both paths are taken as they stand,
    /// with `/` between their parts.
    pub fn from_path(full_path: &str, music_root: &str) -> (track: Option<Track>)
        ensures
            view_of(track) == track_at(full_path@, music_root@),
    {
        let full = chars_of(full_path);
        let root = chars_of(music_root);
        if !below(&full, &root) {
            return None;
        }
        let relative: &str = full_path.substring_char(root.len(), full.len());
        proof {
            assert(relative@ == full_path@.skip(root.len() as int));
        }
        let mut names = split_path(relative);
        if names.len() < 3 {
            return None;
        }
        let relative_chars = chars_of(relative);
        let skipped: usize = count_leading_separators(&relative_chars);
        let trimmed: &str = relative.substring_char(skipped, relative_chars.len());
        proof {
            assert(trimmed@ == relative@.skip(skipped as int));
        }
        let path = forward_slashed(trimmed);
        let file_name = names.pop().unwrap();
        let album = names.pop().unwrap();
        let artist = names.pop().unwrap();
        let title = stem_of(file_name.as_str());
        Some(Track { path, title, artist, album })
    }
}

} // verus!
