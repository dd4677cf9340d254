//! The catalog: the tracks of a music library, in a fixed order.

use vstd::prelude::*;
use crate::text::{increasing, le, same, sorted_distinct, text_le, text_order_is_total, texts};
use crate::track::{Track, TrackView};

verus! {

/// The tracks of a music library. A catalog that was built by this module
/// is sorted by artist, then album, then title; it is replaced as a
/// whole, never changed in part.
#[derive(Debug)]
pub struct Library {
    pub tracks: Vec<Track>,
}

/// What a run of tracks says.
pub open spec fn views(tracks: Seq<Track>) -> Seq<TrackView> {
    Seq::new(tracks.len(), |i: int| tracks[i]@)
}

impl View for Library {
    type V = Seq<TrackView>;

    open spec fn view(&self) -> Seq<TrackView> {
        views(self.tracks@)
    }
}

impl Clone for Library {
    fn clone(&self) -> (copy: Self)
        ensures
            copy@ == self@,
    {
        let mut tracks: Vec<Track> = Vec::new();
        let mut i: usize = 0;
        while i < self.tracks.len()
            invariant
                i <= self.tracks.len(),
                tracks.len() == i,
                views(tracks@) == self@.take(i as int),
            decreases self.tracks.len() - i,
        {
            let ghost before = tracks@;
            let copy = self.tracks[i].clone();
            tracks.push(copy);
            proof {
                assert forall|k: int| 0 <= k < i + 1 implies views(tracks@)[k] == self@.take(
                    i + 1,
                )[k] by {
                    if k < i {
                        assert(views(before)[k] == self@.take(i as int)[k]);
                    }
                }
                assert(views(tracks@) =~= self@.take(i + 1));
            }
            i += 1;
        }
        proof {
            assert(self@.take(self.tracks.len() as int) == self@);
        }
        Library { tracks }
    }
}

/// An order in which tracks are listed.
#[derive(Clone, Copy, Debug, PartialEq, Eq, Structural)]
pub enum TrackOrder {
    /// By artist, then album, then title: the order of a catalog.
    Catalog,
    /// By title alone: the order of the tracks of one album.
    Title,
}

/// Whether track `a` may stand before track `b` in the given order.
pub open spec fn track_le(order: TrackOrder, a: TrackView, b: TrackView) -> bool {
    match order {
        TrackOrder::Catalog => if a.artist != b.artist {
            text_le(a.artist, b.artist)
        } else if a.album != b.album {
            text_le(a.album, b.album)
        } else {
            text_le(a.title, b.title)
        },
        TrackOrder::Title => text_le(a.title, b.title),
    }
}

/// Whether a run of tracks is sorted in the given order.
pub open spec fn ordered(order: TrackOrder, tracks: Seq<TrackView>) -> bool {
    forall|i: int, j: int| 0 <= i < j < tracks.len() ==> track_le(order, tracks[i], tracks[j])
}

/// Where a track goes into a run of tracks: behind the last one that may
/// stand before it.
pub open spec fn insertion_point(order: TrackOrder, tracks: Seq<TrackView>, t: TrackView) -> int
    decreases tracks.len(),
{
    if tracks.len() == 0 {
        0
    } else if track_le(order, tracks.last(), t) {
        tracks.len() as int
    } else {
        insertion_point(order, tracks.drop_last(), t)
    }
}

/// The tracks sorted in the given order, those that the order does not
/// tell apart staying in the order in which they came.
pub open spec fn sorted(order: TrackOrder, tracks: Seq<TrackView>) -> Seq<TrackView>
    decreases tracks.len(),
{
    if tracks.len() == 0 {
        Seq::empty()
    } else {
        let before = sorted(order, tracks.drop_last());
        before.insert(insertion_point(order, before, tracks.last()), tracks.last())
    }
}

/// Each order of tracks compares every two tracks, and what may stand
/// before a track may stand before all that this track may stand before.
pub proof fn track_order_is_total(order: TrackOrder, a: TrackView, b: TrackView, c: TrackView)
    ensures
        track_le(order, a, a),
        track_le(order, a, b) || track_le(order, b, a),
        track_le(order, a, b) && track_le(order, b, c) ==> track_le(order, a, c),
{
    text_order_is_total(a.artist, b.artist, c.artist);
    text_order_is_total(b.artist, a.artist, c.artist);
    text_order_is_total(b.artist, c.artist, a.artist);
    text_order_is_total(a.album, b.album, c.album);
    text_order_is_total(b.album, a.album, c.album);
    text_order_is_total(b.album, c.album, a.album);
    text_order_is_total(a.title, b.title, c.title);
    text_order_is_total(b.title, a.title, c.title);
}

/// The insertion point lies within the run; all tracks from it on may not
/// stand before the new track, and the one just before it may.
pub proof fn insertion_point_divides(order: TrackOrder, tracks: Seq<TrackView>, t: TrackView)
    ensures
        0 <= insertion_point(order, tracks, t) <= tracks.len(),
        forall|i: int|
            insertion_point(order, tracks, t) <= i < tracks.len() ==> !track_le(
                order,
                #[trigger] tracks[i],
                t,
            ),
        insertion_point(order, tracks, t) > 0 ==> track_le(
            order,
            tracks[insertion_point(order, tracks, t) - 1],
            t,
        ),
    decreases tracks.len(),
{
    if tracks.len() > 0 && !track_le(order, tracks.last(), t) {
        let shorter = tracks.drop_last();
        insertion_point_divides(order, shorter, t);
        assert forall|i: int|
            insertion_point(order, tracks, t) <= i < tracks.len() implies !track_le(
            order,
            #[trigger] tracks[i],
            t,
        ) by {
            if i < shorter.len() {
                assert(tracks[i] == shorter[i]);
            }
        }
    }
}

/// A track put at its insertion point into a sorted run leaves the run
/// sorted.
pub proof fn insertion_keeps_order(order: TrackOrder, tracks: Seq<TrackView>, t: TrackView)
    requires
        ordered(order, tracks),
    ensures
        ordered(order, tracks.insert(insertion_point(order, tracks, t), t)),
{
    let p = insertion_point(order, tracks, t);
    let after = tracks.insert(p, t);
    insertion_point_divides(order, tracks, t);
    assert forall|i: int, j: int| 0 <= i < j < after.len() implies track_le(
        order,
        after[i],
        after[j],
    ) by {
        if j == p {
            track_order_is_total(order, tracks[i], tracks[p - 1], t);
        } else if i == p {
            track_order_is_total(order, t, tracks[j - 1], t);
        } else if i < p {
            if j < p {
                assert(track_le(order, tracks[i], tracks[j]));
            } else {
                assert(track_le(order, tracks[i], tracks[j - 1]));
            }
        } else {
            assert(track_le(order, tracks[i - 1], tracks[j - 1]));
        }
    }
}

/// Sorting gives a sorted run that holds the same tracks, each as often
/// as before.
pub proof fn sorted_is_ordered(order: TrackOrder, tracks: Seq<TrackView>)
    ensures
        ordered(order, sorted(order, tracks)),
        sorted(order, tracks).len() == tracks.len(),
        sorted(order, tracks).to_multiset() == tracks.to_multiset(),
    decreases tracks.len(),
{
    if tracks.len() == 0 {
        assert(tracks =~= Seq::<TrackView>::empty());
    } else {
        let before = sorted(order, tracks.drop_last());
        sorted_is_ordered(order, tracks.drop_last());
        insertion_keeps_order(order, before, tracks.last());
        insertion_point_divides(order, before, tracks.last());
        vstd::seq_lib::to_multiset_insert(
            before,
            insertion_point(order, before, tracks.last()),
            tracks.last(),
        );
        assert(tracks =~= tracks.drop_last().push(tracks.last()));
        vstd::seq_lib::to_multiset_build(tracks.drop_last(), tracks.last());
        assert(sorted(order, tracks).to_multiset() =~= tracks.to_multiset());
    }
}

/// A run that is sorted already is left as it is.
pub proof fn sorted_leaves_ordered_alone(order: TrackOrder, tracks: Seq<TrackView>)
    requires
        ordered(order, tracks),
    ensures
        sorted(order, tracks) == tracks,
    decreases tracks.len(),
{
    if tracks.len() > 0 {
        let shorter = tracks.drop_last();
        sorted_leaves_ordered_alone(order, shorter);
        if shorter.len() > 0 {
            assert(track_le(order, tracks[shorter.len() - 1], tracks[tracks.len() - 1]));
        }
        assert(shorter.insert(shorter.len() as int, tracks.last()) == tracks);
    }
}

/// Whether track `a` may stand before track `b` in the given order.
pub fn may_precede(order: TrackOrder, a: &Track, b: &Track) -> (yes: bool)
    ensures
        yes == track_le(order, a@, b@),
{
    match order {
        TrackOrder::Catalog => {
            if a.artist != b.artist {
                le(a.artist.as_str(), b.artist.as_str())
            } else if a.album != b.album {
                le(a.album.as_str(), b.album.as_str())
            } else {
                le(a.title.as_str(), b.title.as_str())
            }
        },
        TrackOrder::Title => le(a.title.as_str(), b.title.as_str()),
    }
}

/// A place that divides a run into tracks that may stand before the new
/// track and tracks that may not is the insertion point.
pub proof fn divide_is_insertion_point(
    order: TrackOrder,
    tracks: Seq<TrackView>,
    t: TrackView,
    p: int,
)
    requires
        0 <= p <= tracks.len(),
        forall|i: int| 0 <= i < p ==> track_le(order, #[trigger] tracks[i], t),
        forall|i: int| p <= i < tracks.len() ==> !track_le(order, #[trigger] tracks[i], t),
    ensures
        insertion_point(order, tracks, t) == p,
    decreases tracks.len(),
{
    if tracks.len() > 0 {
        let shorter = tracks.drop_last();
        if track_le(order, tracks.last(), t) {
            assert(!(p <= tracks.len() - 1)) by {
                if p <= tracks.len() - 1 {
                    assert(!track_le(order, tracks[tracks.len() - 1], t));
                }
            }
        } else {
            assert(p <= tracks.len() - 1) by {
                if p == tracks.len() {
                    assert(track_le(order, tracks[tracks.len() - 1], t));
                }
            }
            assert forall|i: int| 0 <= i < p implies track_le(order, #[trigger] shorter[i], t) by {
                assert(shorter[i] == tracks[i]);
            }
            assert forall|i: int| p <= i < shorter.len() implies !track_le(
                order,
                #[trigger] shorter[i],
                t,
            ) by {
                assert(shorter[i] == tracks[i]);
            }
            divide_is_insertion_point(order, shorter, t, p);
        }
    }
}

/// Where a track goes into a sorted run of tracks, found by halving the
/// run.
fn find_insertion_point(order: TrackOrder, tracks: &Vec<Track>, t: &Track) -> (p: usize)
    requires
        ordered(order, views(tracks@)),
    ensures
        p <= tracks.len(),
        p == insertion_point(order, views(tracks@), t@),
{
    let ghost run = views(tracks@);
    let mut low: usize = 0;
    let mut high: usize = tracks.len();
    while low < high
        invariant
            low <= high <= tracks.len(),
            run == views(tracks@),
            ordered(order, run),
            forall|i: int| 0 <= i < low ==> track_le(order, #[trigger] run[i], t@),
            forall|i: int| high <= i < run.len() ==> !track_le(order, #[trigger] run[i], t@),
        decreases high - low,
    {
        let middle: usize = low + (high - low) / 2;
        if may_precede(order, &tracks[middle], t) {
            proof {
                assert forall|i: int| 0 <= i < middle + 1 implies track_le(
                    order,
                    #[trigger] run[i],
                    t@,
                ) by {
                    if i < middle {
                        assert(track_le(order, run[i], run[middle as int]));
                    }
                    track_order_is_total(order, run[i], run[middle as int], t@);
                }
            }
            low = middle + 1;
        } else {
            proof {
                assert forall|i: int| middle <= i < run.len() implies !track_le(
                    order,
                    #[trigger] run[i],
                    t@,
                ) by {
                    if middle < i {
                        assert(track_le(order, run[middle as int], run[i]));
                    }
                    track_order_is_total(order, run[middle as int], run[i], t@);
                }
            }
            high = middle;
        }
    }
    proof {
        divide_is_insertion_point(order, run, t@, low as int);
    }
    low
}

/// The tracks sorted in the given order; tracks that the order does not
/// tell apart stay in the order in which they came.
pub fn sort_tracks(order: TrackOrder, tracks: &Vec<Track>) -> (out: Vec<Track>)
    ensures
        views(out@) == sorted(order, views(tracks@)),
{
    let mut out: Vec<Track> = Vec::new();
    let mut i: usize = 0;
    proof {
        assert(views(tracks@).take(0) == Seq::<TrackView>::empty());
        assert(views(out@) == Seq::<TrackView>::empty());
    }
    while i < tracks.len()
        invariant
            i <= tracks.len(),
            views(out@) == sorted(order, views(tracks@).take(i as int)),
        decreases tracks.len() - i,
    {
        let t = tracks[i].clone();
        let ghost before = views(out@);
        proof {
            sorted_is_ordered(order, views(tracks@).take(i as int));
        }
        let p: usize = find_insertion_point(order, &out, &t);
        proof {
            assert(views(tracks@).take(i + 1).drop_last() == views(tracks@).take(i as int));
            assert(views(tracks@).take(i + 1).last() == t@);
        }
        out.insert(p, t);
        proof {
            assert(views(out@) == before.insert(p as int, t@));
        }
        i += 1;
    }
    proof {
        assert(views(tracks@).take(tracks.len() as int) == views(tracks@));
    }
    out
}

impl Library {
    /// The catalog of the given tracks: the tracks sorted by artist, then
    /// album, then title.
    pub fn from_tracks(tracks: Vec<Track>) -> (library: Library)
        ensures
            library@ == sorted(TrackOrder::Catalog, views(tracks@)),
            ordered(TrackOrder::Catalog, library@),
            library@.to_multiset() == views(tracks@).to_multiset(),
    {
        let sorted_tracks = sort_tracks(TrackOrder::Catalog, &tracks);
        proof {
            sorted_is_ordered(TrackOrder::Catalog, views(tracks@));
        }
        Library { tracks: sorted_tracks }
    }
}

/// The artist of each track, in the order of the tracks.
pub open spec fn artist_names(tracks: Seq<TrackView>) -> Seq<Seq<char>> {
    Seq::new(tracks.len(), |i: int| tracks[i].artist)
}

/// The tracks of one album of one artist, in the order in which they
/// stand.
pub open spec fn of_album(tracks: Seq<TrackView>, artist: Seq<char>, album: Seq<char>) -> Seq<
    TrackView,
>
    decreases tracks.len(),
{
    if tracks.len() == 0 {
        Seq::empty()
    } else if tracks.last().artist == artist && tracks.last().album == album {
        of_album(tracks.drop_last(), artist, album).push(tracks.last())
    } else {
        of_album(tracks.drop_last(), artist, album)
    }
}

/// The album of each track of one artist, in the order of the tracks.
pub open spec fn album_names(tracks: Seq<TrackView>, artist: Seq<char>) -> Seq<Seq<char>>
    decreases tracks.len(),
{
    if tracks.len() == 0 {
        Seq::empty()
    } else if tracks.last().artist == artist {
        album_names(tracks.drop_last(), artist).push(tracks.last().album)
    } else {
        album_names(tracks.drop_last(), artist)
    }
}

/// Whether `index` is the place of the first track with the given path.
pub open spec fn first_with_path(tracks: Seq<TrackView>, path: Seq<char>, index: int) -> bool {
    &&& 0 <= index < tracks.len()
    &&& tracks[index].path == path
    &&& forall|j: int| 0 <= j < index ==> tracks[j].path != path
}

/// The albums named by the tracks of one artist are the albums of the
/// tracks that name that artist, and no others.
pub proof fn album_names_are_of_artist(tracks: Seq<TrackView>, artist: Seq<char>, album: Seq<char>)
    ensures
        album_names(tracks, artist).contains(album) <==> exists|i: int|
            0 <= i < tracks.len() && tracks[i].artist == artist && tracks[i].album == album,
    decreases tracks.len(),
{
    let names = album_names(tracks, artist);
    if tracks.len() > 0 {
        let shorter = tracks.drop_last();
        let fewer = album_names(shorter, artist);
        album_names_are_of_artist(shorter, artist, album);
        if names.contains(album) {
            let k = choose|k: int| 0 <= k < names.len() && names[k] == album;
            if k < fewer.len() {
                assert(fewer[k] == album);
                let i = choose|i: int|
                    0 <= i < shorter.len() && shorter[i].artist == artist && shorter[i].album
                        == album;
                assert(tracks[i] == shorter[i]);
            } else {
                assert(tracks[tracks.len() - 1].album == album);
            }
        }
        if exists|i: int|
            0 <= i < tracks.len() && tracks[i].artist == artist && tracks[i].album == album {
            let i = choose|i: int|
                0 <= i < tracks.len() && tracks[i].artist == artist && tracks[i].album == album;
            if i < shorter.len() {
                assert(shorter[i] == tracks[i]);
                let k = choose|k: int| 0 <= k < fewer.len() && fewer[k] == album;
                assert(names[k] == album);
            } else {
                assert(names[names.len() - 1] == album);
            }
        }
    }
}

/// The tracks of an album are tracks of the run, of that artist and
/// that album.
pub proof fn of_album_holds_tracks_of_the_run(
    tracks: Seq<TrackView>,
    artist: Seq<char>,
    album: Seq<char>,
)
    ensures
        forall|k: int|
            0 <= k < of_album(tracks, artist, album).len() ==> {
                let t = #[trigger] of_album(tracks, artist, album)[k];
                t.artist == artist && t.album == album && tracks.contains(t)
            },
    decreases tracks.len(),
{
    if tracks.len() > 0 {
        let shorter = tracks.drop_last();
        of_album_holds_tracks_of_the_run(shorter, artist, album);
        assert forall|k: int| 0 <= k < of_album(tracks, artist, album).len() implies {
            let t = #[trigger] of_album(tracks, artist, album)[k];
            t.artist == artist && t.album == album && tracks.contains(t)
        } by {
            let t = of_album(tracks, artist, album)[k];
            if k < of_album(shorter, artist, album).len() {
                assert(t == of_album(shorter, artist, album)[k]);
                let i = choose|i: int| 0 <= i < shorter.len() && shorter[i] == t;
                assert(tracks[i] == t);
            } else {
                assert(tracks[tracks.len() - 1] == t);
            }
        }
    }
}

/// In a catalog the tracks of an album stand in the order of their
/// titles already: listing them leaves them in the order of the catalog.
pub proof fn album_of_a_catalog_is_in_order(
    tracks: Seq<TrackView>,
    artist: Seq<char>,
    album: Seq<char>,
)
    requires
        ordered(TrackOrder::Catalog, tracks),
    ensures
        ordered(TrackOrder::Title, of_album(tracks, artist, album)),
        sorted(TrackOrder::Title, of_album(tracks, artist, album)) == of_album(
            tracks,
            artist,
            album,
        ),
    decreases tracks.len(),
{
    let picked = of_album(tracks, artist, album);
    if tracks.len() > 0 {
        let shorter = tracks.drop_last();
        let fewer = of_album(shorter, artist, album);
        assert forall|i: int, j: int| 0 <= i < j < shorter.len() implies track_le(
            TrackOrder::Catalog,
            shorter[i],
            shorter[j],
        ) by {
            assert(track_le(TrackOrder::Catalog, tracks[i], tracks[j]));
        }
        album_of_a_catalog_is_in_order(shorter, artist, album);
        of_album_holds_tracks_of_the_run(shorter, artist, album);
        assert forall|i: int, j: int| 0 <= i < j < picked.len() implies track_le(
            TrackOrder::Title,
            picked[i],
            picked[j],
        ) by {
            if j < fewer.len() {
                assert(track_le(TrackOrder::Title, fewer[i], fewer[j]));
            } else {
                let t = fewer[i];
                let k = choose|k: int| 0 <= k < shorter.len() && shorter[k] == t;
                assert(track_le(TrackOrder::Catalog, tracks[k], tracks[tracks.len() - 1]));
            }
        }
    }
    sorted_leaves_ordered_alone(TrackOrder::Title, picked);
}

impl Library {
    /// The artists of the library, each once, in the order of strings.
    pub fn artists(&self) -> (names: Vec<String>)
        ensures
            increasing(texts(names@)),
            forall|x: Seq<char>| texts(names@).contains(x) <==> artist_names(self@).contains(x),
    {
        let mut all: Vec<String> = Vec::new();
        let mut i: usize = 0;
        while i < self.tracks.len()
            invariant
                i <= self.tracks.len(),
                all.len() == i,
                texts(all@) == artist_names(self@).take(i as int),
            decreases self.tracks.len() - i,
        {
            all.push(self.tracks[i].artist.clone());
            proof {
                assert(texts(all@) =~= artist_names(self@).take(i + 1));
            }
            i += 1;
        }
        proof {
            assert(artist_names(self@).take(self.tracks.len() as int) =~= artist_names(self@));
        }
        sorted_distinct(&all)
    }

    /// The albums of one artist, each once, in the order of strings.
    pub fn albums(&self, artist: &str) -> (names: Vec<String>)
        ensures
            increasing(texts(names@)),
            forall|x: Seq<char>|
                texts(names@).contains(x) <==> album_names(self@, artist@).contains(x),
    {
        let mut all: Vec<String> = Vec::new();
        let mut i: usize = 0;
        proof {
            assert(self@.take(0) =~= Seq::<TrackView>::empty());
        }
        while i < self.tracks.len()
            invariant
                i <= self.tracks.len(),
                texts(all@) == album_names(self@.take(i as int), artist@),
            decreases self.tracks.len() - i,
        {
            proof {
                assert(self@.take(i + 1).drop_last() =~= self@.take(i as int));
                assert(self@.take(i + 1).last() == self.tracks[i as int]@);
            }
            if same(self.tracks[i].artist.as_str(), artist) {
                let ghost before = texts(all@);
                all.push(self.tracks[i].album.clone());
                proof {
                    assert(texts(all@) =~= before.push(self.tracks[i as int]@.album));
                }
            }
            i += 1;
        }
        proof {
            assert(self@.take(self.tracks.len() as int) =~= self@);
        }
        sorted_distinct(&all)
    }

    /// The tracks of one album of one artist, sorted by title; tracks with
    /// one title stay in the order of the library.
    pub fn tracks_of(&self, artist: &str, album: &str) -> (tracks: Vec<Track>)
        ensures
            views(tracks@) == sorted(TrackOrder::Title, of_album(self@, artist@, album@)),
    {
        let mut picked: Vec<Track> = Vec::new();
        let mut i: usize = 0;
        proof {
            assert(self@.take(0) =~= Seq::<TrackView>::empty());
            assert(views(picked@) =~= Seq::<TrackView>::empty());
        }
        while i < self.tracks.len()
            invariant
                i <= self.tracks.len(),
                views(picked@) == of_album(self@.take(i as int), artist@, album@),
            decreases self.tracks.len() - i,
        {
            proof {
                assert(self@.take(i + 1).drop_last() =~= self@.take(i as int));
                assert(self@.take(i + 1).last() == self.tracks[i as int]@);
            }
            if same(self.tracks[i].artist.as_str(), artist) && same(
                self.tracks[i].album.as_str(),
                album,
            ) {
                let ghost before = views(picked@);
                picked.push(self.tracks[i].clone());
                proof {
                    assert(views(picked@) =~= before.push(self.tracks[i as int]@));
                }
            }
            i += 1;
        }
        proof {
            assert(self@.take(self.tracks.len() as int) =~= self@);
        }
        sort_tracks(TrackOrder::Title, &picked)
    }

    /// The first track of the library that has the given path, if any.
    pub fn find(&self, path: &str) -> (found: Option<Track>)
        ensures
            match found {
                Some(track) => exists|i: int|
                    first_with_path(self@, path@, i) && track@ == #[trigger] self@[i],
                None => forall|i: int| 0 <= i < self@.len() ==> (#[trigger] self@[i]).path != path@,
            },
    {
        let mut i: usize = 0;
        while i < self.tracks.len()
            invariant
                i <= self.tracks.len(),
                forall|j: int| 0 <= j < i ==> (#[trigger] self@[j]).path != path@,
            decreases self.tracks.len() - i,
        {
            if same(self.tracks[i].path.as_str(), path) {
                proof {
                    assert(first_with_path(self@, path@, i as int));
                }
                return Some(self.tracks[i].clone());
            }
            i += 1;
        }
        None
    }
}

} // verus!
