//! Finding the recent releases of the artists in a listener's library.
//!
//! Spotify has no feed for it. Artists are collected from the library, each
//! artist's albums are listed, and the recent ones are loaded with their
//! tracks. This module decides every step of that; what it asks for is
//! fetched by the caller.

use vstd::prelude::*;

use crate::models::{text_of, ArtistRef, SavedAlbum, SavedTrack};
use crate::sets::{with_all, TextSet};
use crate::text::{rank_texts, same_text, text_below, text_order_is_total, Rank};

verus! {

/// How many albums are loaded with one request.
pub const RELEASE_ALBUM_BATCH: usize = 20;

/// How many artists are looked at side by side.
pub const RELEASE_ARTIST_WORKERS: usize = 2;

/// How many library entries are asked for at once.
pub const RELEASE_LIBRARY_PAGE: u32 = 50;

pub const SECONDS_PER_DAY: i64 = 86_400;

/// The first and last second that a timestamp can hold.
pub const FIRST_SECOND: i64 = -377_705_023_201;

pub const LAST_SECOND: i64 = 253_402_207_200;

// ---- artist sources --------------------------------------------------------

/// Where the artists come from whose releases are shown.
#[derive(Clone, Copy, Debug, PartialEq, Eq, Structural)]
pub enum ReleaseArtistSource {
    FollowedArtists,
    SavedAlbums,
    LikedSongs,
}

/// Whether a source is among the chosen ones.
pub fn has_source(sources: &Vec<ReleaseArtistSource>, wanted: ReleaseArtistSource) -> (r: bool)
    ensures
        r == sources@.contains(wanted),
{
    let mut i: usize = 0;
    while i < sources.len()
        invariant
            i <= sources@.len(),
            forall|k: int| 0 <= k < i ==> #[trigger] sources@[k] != wanted,
        decreases sources.len() - i,
    {
        if sources[i] == wanted {
            return true;
        }
        i += 1;
    }
    false
}

// ---- progress ---------------------------------------------------------------

#[derive(Clone, Copy, Debug, PartialEq, Eq, Structural)]
pub enum ReleaseScanPhase {
    CollectingArtists,
    ScanningArtists,
    LoadingTracks,
}

#[derive(Clone, Copy, Debug, PartialEq, Eq, Structural)]
pub struct ReleaseScanProgress {
    pub phase: ReleaseScanPhase,
    pub completed: usize,
    pub total: usize,
    pub found_releases: usize,
}

// ---- dates ------------------------------------------------------------------

/// The calendar date, in UTC, of a second since the Unix epoch.
pub uninterp spec fn date_text(second: i64) -> Seq<char>;

/// Calls `jiff::Timestamp::from_second` and its `strftime` with a pattern for
/// the calendar date. `from_second` fails, and this would panic, outside the
/// range of a timestamp; the pattern is one that formatting cannot fail on.
/// The claim is only that the text is a function of the second, which
/// `date_text` names.
#[verifier::external_body]
fn format_date(second: i64, pattern: &str) -> (text: String)
    requires
        FIRST_SECOND <= second <= LAST_SECOND,
        pattern@ == "%Y-%m-%d"@,
    ensures
        text@ == date_text(second),
{
    jiff::Timestamp::from_second(second).unwrap().strftime(pattern).to_string()
}

/// The second that lies a number of days before another.
pub open spec fn days_before(days: u16, now: i64) -> int {
    now - days * SECONDS_PER_DAY
}

/// The earliest release date that still counts as recent.
pub fn release_cutoff(days: u16, now: i64) -> (cutoff: String)
    requires
        FIRST_SECOND <= days_before(days, now),
        now <= LAST_SECOND,
    ensures
        cutoff@ == date_text(days_before(days, now) as i64),
{
    format_date(now - days as i64 * SECONDS_PER_DAY, "%Y-%m-%d")
}

/// The latest release date that counts: a day ahead, for time zones where the
/// next day has begun.
pub fn release_horizon(now: i64) -> (tomorrow: String)
    requires
        FIRST_SECOND <= now <= LAST_SECOND - SECONDS_PER_DAY,
    ensures
        tomorrow@ == date_text((now + SECONDS_PER_DAY) as i64),
{
    format_date(now + SECONDS_PER_DAY, "%Y-%m-%d")
}

/// Whether a release date lies in the period, both ends included.
pub open spec fn recent(date: Option<Seq<char>>, cutoff: Seq<char>, tomorrow: Seq<char>) -> bool {
    match date {
        Some(date) => !text_below(date, cutoff) && !text_below(tomorrow, date),
        None => false,
    }
}

pub fn is_recent(date: &Option<String>, cutoff: &str, tomorrow: &str) -> (r: bool)
    ensures
        r == recent(text_of(*date), cutoff@, tomorrow@),
{
    match date {
        Some(date) => {
            proof {
                text_order_is_total(date@, cutoff@);
                text_order_is_total(tomorrow@, date@);
            }
            rank_texts(date.as_str(), cutoff) != Rank::Before && rank_texts(tomorrow, date.as_str())
                != Rank::Before
        },
        None => false,
    }
}

/// Both ends of the period count.
pub proof fn the_period_is_inclusive(cutoff: Seq<char>, tomorrow: Seq<char>)
    requires
        !text_below(tomorrow, cutoff),
    ensures
        recent(Some(cutoff), cutoff, tomorrow),
        recent(Some(tomorrow), cutoff, tomorrow),
{
    text_order_is_total(cutoff, cutoff);
    text_order_is_total(tomorrow, tomorrow);
}

// ---- credits ----------------------------------------------------------------

/// The ids behind a list of credits, without the missing and the empty ones.
pub open spec fn credited(artists: Seq<ArtistRef>) -> Seq<Seq<char>>
    decreases artists.len(),
{
    if artists.len() == 0 {
        Seq::empty()
    } else {
        let before = credited(artists.drop_last());
        match artists.last().id {
            Some(id) => if id@.len() > 0 {
                before.push(id@)
            } else {
                before
            },
            None => before,
        }
    }
}

/// The ids credited on saved albums, album after album.
pub open spec fn album_credits(albums: Seq<SavedAlbum>) -> Seq<Seq<char>>
    decreases albums.len(),
{
    if albums.len() == 0 {
        Seq::empty()
    } else {
        album_credits(albums.drop_last()) + credited(albums.last().album.artists@)
    }
}

/// The ids credited on saved tracks, track after track.
pub open spec fn track_credits(tracks: Seq<SavedTrack>) -> Seq<Seq<char>>
    decreases tracks.len(),
{
    if tracks.len() == 0 {
        Seq::empty()
    } else {
        track_credits(tracks.drop_last()) + credited(tracks.last().track.artists@)
    }
}

proof fn with_all_in_two_parts(base: Seq<Seq<char>>, a: Seq<Seq<char>>, b: Seq<Seq<char>>)
    ensures
        with_all(base, a + b) == with_all(with_all(base, a), b),
    decreases b.len(),
{
    if b.len() == 0 {
        assert(a + b =~= a);
    } else {
        assert((a + b).drop_last() =~= a + b.drop_last());
        assert((a + b).last() == b.last());
        with_all_in_two_parts(base, a, b.drop_last());
    }
}

fn add_credits(ids: &mut TextSet, artists: &Vec<ArtistRef>)
    requires
        old(ids).wf(),
    ensures
        final(ids).wf(),
        final(ids).list() == with_all(old(ids).list(), credited(artists@)),
{
    let mut i: usize = 0;
    assert(artists@.take(0) =~= Seq::<ArtistRef>::empty());
    while i < artists.len()
        invariant
            i <= artists@.len(),
            ids.wf(),
            ids.list() == with_all(old(ids).list(), credited(artists@.take(i as int))),
        decreases artists.len() - i,
    {
        proof {
            let next = artists@.take(i + 1);
            assert(next.drop_last() =~= artists@.take(i as int));
            let before = credited(artists@.take(i as int));
            match artists@[i as int].id {
                Some(id) => {
                    assert(before.push(id@).drop_last() =~= before);
                },
                None => {},
            }
        }
        match &artists[i].id {
            Some(id) => {
                if !id.as_str().is_empty() {
                    ids.insert(id.clone());
                }
            },
            None => {},
        }
        i += 1;
    }
    assert(artists@.take(i as int) =~= artists@);
}

/// Adds every artist credited on the albums, each once.
pub fn add_saved_album_artist_ids(artists: &mut TextSet, albums: &Vec<SavedAlbum>)
    requires
        old(artists).wf(),
    ensures
        final(artists).wf(),
        final(artists).list() == with_all(old(artists).list(), album_credits(albums@)),
{
    let mut i: usize = 0;
    assert(albums@.take(0) =~= Seq::<SavedAlbum>::empty());
    while i < albums.len()
        invariant
            i <= albums@.len(),
            artists.wf(),
            artists.list() == with_all(old(artists).list(), album_credits(albums@.take(i as int))),
        decreases albums.len() - i,
    {
        proof {
            assert(albums@.take(i + 1).drop_last() =~= albums@.take(i as int));
            with_all_in_two_parts(
                old(artists).list(),
                album_credits(albums@.take(i as int)),
                credited(albums@[i as int].album.artists@),
            );
        }
        add_credits(artists, &albums[i].album.artists);
        i += 1;
    }
    assert(albums@.take(i as int) =~= albums@);
}

/// How often an id stands in a list.
pub open spec fn tally(ids: Seq<Seq<char>>, id: Seq<char>) -> nat
    decreases ids.len(),
{
    if ids.len() == 0 {
        0
    } else {
        tally(ids.drop_last(), id) + if ids.last() == id {
            1nat
        } else {
            0nat
        }
    }
}

proof fn tally_in_two_parts(a: Seq<Seq<char>>, b: Seq<Seq<char>>, id: Seq<char>)
    ensures
        tally(a + b, id) == tally(a, id) + tally(b, id),
    decreases b.len(),
{
    if b.len() == 0 {
        assert(a + b =~= a);
    } else {
        assert((a + b).drop_last() =~= a + b.drop_last());
        assert((a + b).last() == b.last());
        tally_in_two_parts(a, b.drop_last(), id);
    }
}

/// How many liked songs credit each artist.
pub struct ArtistCounts {
    ids: TextSet,
    counts: Vec<u32>,
}

impl ArtistCounts {
    /// The artists counted, in the order in which they were first met.
    pub closed spec fn artists(&self) -> Seq<Seq<char>> {
        self.ids.list()
    }

    /// How often an artist was counted.
    pub closed spec fn count(&self, id: Seq<char>) -> nat {
        if self.ids.list().contains(id) {
            self.counts@[self.ids.list().index_of(id)] as nat
        } else {
            0
        }
    }

    pub closed spec fn wf(&self) -> bool {
        &&& self.ids.wf()
        &&& self.counts@.len() == self.ids.list().len()
    }

    pub fn new() -> (r: ArtistCounts)
        ensures
            r.wf(),
            r.artists() == Seq::<Seq<char>>::empty(),
            forall|id: Seq<char>| #[trigger] r.count(id) == 0,
    {
        ArtistCounts { ids: TextSet::new(), counts: Vec::new() }
    }

    /// Counts one more song for an artist.
    fn add_one(&mut self, id: &String)
        requires
            old(self).wf(),
            old(self).count(id@) < u32::MAX,
        ensures
            final(self).wf(),
            final(self).artists() == with_all(old(self).artists(), seq![id@]),
            forall|other: Seq<char>| #[trigger]
                final(self).count(other) == old(self).count(other) + tally(seq![id@], other),
    {
        proof {
            reveal_with_fuel(with_all, 2);
            assert(seq![id@].drop_last() =~= Seq::<Seq<char>>::empty());
            reveal_with_fuel(tally, 2);
        }
        let ghost before = self.ids.list();
        let ghost counted = self.counts@;
        let mut i: usize = 0;
        while i < self.ids.len()
            invariant
                *self == *old(self),
                self.wf(),
                before == self.ids.list(),
                counted == self.counts@,
                i <= before.len(),
                forall|k: int| 0 <= k < i ==> #[trigger] before[k] != id@,
                self.count(id@) < u32::MAX,
                before.no_duplicates(),
                forall|other: Seq<char>| #[trigger] tally(seq![id@], other) == if other == id@ {
                    1nat
                } else {
                    0nat
                },
                with_all(before, seq![id@]) == if before.contains(id@) {
                    before
                } else {
                    before.push(id@)
                },
            decreases before.len() - i,
        {
            if same_text(self.ids.get(i).as_str(), id.as_str()) {
                assert(before.index_of(id@) == i);
                let held: u32 = self.counts[i];
                self.counts.set(i, held + 1);
                proof {
                    assert forall|other: Seq<char>| #[trigger]
                        self.count(other) == old(self).count(other) + tally(seq![id@], other) by {
                        if before.contains(other) {
                            let k = before.index_of(other);
                            assert(before[k] == other);
                        }
                    }
                }
                return;
            }
            i += 1;
        }
        let added = self.ids.insert(id.clone());
        self.counts.push(1);
        proof {
            assert(!before.contains(id@));
            let after = self.ids.list();
            assert(after == before.push(id@));
            assert forall|other: Seq<char>| #[trigger]
                self.count(other) == old(self).count(other) + tally(seq![id@], other) by {
                if other == id@ {
                    assert(after[before.len() as int] == id@);
                    let k = after.index_of(id@);
                    assert(after[k] == id@);
                    assert(k == before.len());
                } else if before.contains(other) {
                    let k = before.index_of(other);
                    assert(after[k] == other);
                    let m = after.index_of(other);
                    assert(after[m] == other);
                    assert(m == k);
                } else if after.contains(other) {
                    let m = after.index_of(other);
                    assert(after[m] == other);
                    assert(m < before.len());
                    assert(before[m] == other);
                }
            }
        }
    }
}

/// Counts, for every artist, the songs that credit them.
pub fn count_liked_track_artists(counts: &mut ArtistCounts, tracks: &Vec<SavedTrack>)
    requires
        old(counts).wf(),
        forall|id: Seq<char>|
            old(counts).count(id) + #[trigger] tally(track_credits(tracks@), id) <= u32::MAX,
    ensures
        final(counts).wf(),
        final(counts).artists() == with_all(old(counts).artists(), track_credits(tracks@)),
        forall|id: Seq<char>| #[trigger]
            final(counts).count(id) == old(counts).count(id) + tally(track_credits(tracks@), id),
{
    let ghost all = track_credits(tracks@);
    let ghost start = *counts;
    let mut i: usize = 0;
    assert(tracks@.take(0) =~= Seq::<SavedTrack>::empty());
    while i < tracks.len()
        invariant
            i <= tracks@.len(),
            counts.wf(),
            all == track_credits(tracks@),
            start == *old(counts),
            forall|id: Seq<char>| start.count(id) + #[trigger] tally(all, id) <= u32::MAX,
            counts.artists() == with_all(start.artists(), track_credits(tracks@.take(i as int))),
            forall|id: Seq<char>| #[trigger]
                counts.count(id) == start.count(id) + tally(
                    track_credits(tracks@.take(i as int)),
                    id,
                ),
        decreases tracks.len() - i,
    {
        let ghost done = track_credits(tracks@.take(i as int));
        let artists = &tracks[i].track.artists;
        proof {
            assert(tracks@.take(i + 1).drop_last() =~= tracks@.take(i as int));
            track_credits_begin_with(tracks@, i + 1);
        }
        let mut j: usize = 0;
        assert(artists@.take(0) =~= Seq::<ArtistRef>::empty());
        assert(done + credited(artists@.take(0)) =~= done);
        while j < artists.len()
            invariant
                i < tracks@.len(),
                j <= artists@.len(),
                artists == tracks@[i as int].track.artists,
                counts.wf(),
                all == track_credits(tracks@),
                forall|id: Seq<char>| start.count(id) + #[trigger] tally(all, id) <= u32::MAX,
                all.len() >= (done + credited(artists@)).len(),
                all.take((done + credited(artists@)).len() as int) == done + credited(artists@),
                counts.artists() == with_all(
                    start.artists(),
                    done + credited(artists@.take(j as int)),
                ),
                forall|id: Seq<char>| #[trigger]
                    counts.count(id) == start.count(id) + tally(
                        done + credited(artists@.take(j as int)),
                        id,
                    ),
            decreases artists.len() - j,
        {
            let ghost part = credited(artists@.take(j as int));
            proof {
                assert(artists@.take(j + 1).drop_last() =~= artists@.take(j as int));
                credited_begins_with(artists@, j + 1);
            }
            match &artists[j].id {
                Some(id) => {
                    if !id.as_str().is_empty() {
                        proof {
                            let longer = credited(artists@.take(j + 1));
                            assert(longer == part.push(id@));
                            assert(done + longer =~= (done + part).push(id@));
                            assert((done + longer).drop_last() =~= done + part);
                            let rest = all.skip((done + longer).len() as int);
                            assert(all =~= (done + longer) + rest) by {
                                assert(all.take((done + longer).len() as int) =~= all.take(
                                    (done + credited(artists@)).len() as int,
                                ).take((done + longer).len() as int));
                                assert((done + credited(artists@)).take(
                                    (done + longer).len() as int,
                                ) =~= done + credited(artists@).take(longer.len() as int));
                            }
                            tally_in_two_parts(done + longer, rest, id@);
                            assert(tally(all, id@) >= tally(done + part, id@) + 1);
                            with_all_in_two_parts(start.artists(), done + part, seq![id@]);
                            assert(done + part + seq![id@] =~= done + longer);
                            assert forall|other: Seq<char>| #[trigger]
                                tally(done + longer, other) == tally(done + part, other) + tally(
                                    seq![id@],
                                    other,
                                ) by {
                                tally_in_two_parts(done + part, seq![id@], other);
                            }
                        }
                        counts.add_one(id);
                    }
                },
                None => {},
            }
            j += 1;
        }
        assert(artists@.take(j as int) =~= artists@);
        i += 1;
    }
    assert(tracks@.take(i as int) =~= tracks@);
}

proof fn credited_begins_with(artists: Seq<ArtistRef>, upto: int)
    requires
        0 <= upto <= artists.len(),
    ensures
        credited(artists.take(upto)).len() <= credited(artists).len(),
        credited(artists).take(credited(artists.take(upto)).len() as int) == credited(
            artists.take(upto),
        ),
    decreases artists.len(),
{
    if upto == artists.len() {
        assert(artists.take(upto) =~= artists);
        assert(credited(artists).take(credited(artists).len() as int) =~= credited(artists));
    } else {
        let shorter = artists.drop_last();
        credited_begins_with(shorter, upto);
        assert(shorter.take(upto) =~= artists.take(upto));
        let n = credited(artists.take(upto)).len() as int;
        assert(credited(artists).take(n) =~= credited(shorter).take(n));
    }
}

proof fn track_credits_begin_with(tracks: Seq<SavedTrack>, upto: int)
    requires
        0 <= upto <= tracks.len(),
    ensures
        track_credits(tracks.take(upto)).len() <= track_credits(tracks).len(),
        track_credits(tracks).take(track_credits(tracks.take(upto)).len() as int) == track_credits(
            tracks.take(upto),
        ),
    decreases tracks.len(),
{
    if upto == tracks.len() {
        assert(tracks.take(upto) =~= tracks);
        assert(track_credits(tracks).take(track_credits(tracks).len() as int) =~= track_credits(
            tracks,
        ));
    } else {
        let shorter = tracks.drop_last();
        track_credits_begin_with(shorter, upto);
        assert(shorter.take(upto) =~= tracks.take(upto));
        let n = track_credits(tracks.take(upto)).len() as int;
        assert(track_credits(tracks).take(n) =~= track_credits(shorter).take(n));
    }
}

/// How many liked songs an artist needs: what was asked for, and at least one.
pub open spec fn liked_threshold(minimum_liked_tracks: u16) -> nat {
    if minimum_liked_tracks == 0 {
        1
    } else {
        minimum_liked_tracks as nat
    }
}

/// The artists of `ids` with enough songs.
pub open spec fn qualified(
    ids: Seq<Seq<char>>,
    counts: ArtistCounts,
    minimum_liked_tracks: u16,
) -> Seq<Seq<char>> {
    ids.filter(|id: Seq<char>| counts.count(id) >= liked_threshold(minimum_liked_tracks))
}

/// The artists with enough liked songs.
pub fn qualified_liked_artist_ids(counts: &ArtistCounts, minimum_liked_tracks: u16) -> (r: TextSet)
    requires
        counts.wf(),
    ensures
        r.wf(),
        r.list() == qualified(counts.artists(), *counts, minimum_liked_tracks),
        forall|id: Seq<char>| #[trigger]
            r@.contains(id) == (counts.count(id) >= liked_threshold(minimum_liked_tracks)),
{
    let minimum: u32 = if minimum_liked_tracks == 0 {
        1
    } else {
        minimum_liked_tracks as u32
    };
    let mut chosen = TextSet::new();
    let ghost ids = counts.artists();
    let ghost enough = |id: Seq<char>| counts.count(id) >= liked_threshold(minimum_liked_tracks);
    let mut i: usize = 0;
    proof {
        reveal(Seq::filter);
        assert(ids.take(0) =~= Seq::<Seq<char>>::empty());
    }
    while i < counts.ids.len()
        invariant
            counts.wf(),
            ids == counts.artists(),
            ids == counts.ids.list(),
            ids.no_duplicates(),
            minimum == liked_threshold(minimum_liked_tracks),
            enough == (|id: Seq<char>|
                counts.count(id) >= liked_threshold(minimum_liked_tracks)),
            i <= ids.len(),
            chosen.wf(),
            chosen.list() == ids.take(i as int).filter(enough),
        decreases ids.len() - i,
    {
        let ghost id = ids[i as int];
        proof {
            reveal(Seq::filter);
            assert(ids.take(i + 1).drop_last() =~= ids.take(i as int));
            assert(ids.contains(id));
            let k = ids.index_of(id);
            assert(ids[k] == id && k == i);
            filtered_is_contained(ids.take(i as int), enough, id);
            if ids.take(i as int).contains(id) {
                let m = ids.take(i as int).index_of(id);
                assert(ids[m] == id);
            }
        }
        if counts.counts[i] >= minimum {
            chosen.insert(counts.ids.get(i).clone());
        }
        i += 1;
    }
    proof {
        assert(ids.take(i as int) =~= ids);
        assert forall|id: Seq<char>| #[trigger] chosen@.contains(id) == (counts.count(id)
            >= liked_threshold(minimum_liked_tracks)) by {
            broadcast use vstd::seq_lib::group_filter_ensures;
            if enough(id) && ids.contains(id) {
                let k = ids.index_of(id);
                assert(ids[k] == id);
                assert(ids.filter(enough).contains(id));
            }
            filtered_is_contained(ids, enough, id);
            if chosen.list().contains(id) {
                let k = chosen.list().index_of(id);
                assert(enough(chosen.list()[k]));
            }
        }
    }
    chosen
}

proof fn filtered_is_contained(s: Seq<Seq<char>>, keep: spec_fn(Seq<char>) -> bool, x: Seq<char>)
    ensures
        s.filter(keep).contains(x) ==> s.contains(x),
    decreases s.len(),
{
    reveal(Seq::filter);
    if s.len() > 0 {
        let shorter = s.drop_last();
        filtered_is_contained(shorter, keep, x);
        if s.filter(keep).contains(x) {
            let k = s.filter(keep).index_of(x);
            if k < shorter.filter(keep).len() {
                assert(shorter.filter(keep)[k] == x);
                let m = shorter.index_of(x);
                assert(s[m] == x);
            } else {
                assert(s[s.len() - 1] == x);
            }
        }
    }
}

} // verus!
