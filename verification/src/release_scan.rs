//! The scan itself: which pages are asked for, what is kept of the answers,
//! and how far the work has come.

use std::sync::Arc;

use vstd::prelude::*;

use crate::client::{artist_albums_page, at_most, paged, path2, ApiClient};
use crate::models::{
    clone_text, text_of, Album, AlbumSummary, Artist, CursorPage, Page, Track,
};
use crate::release_order::{ordered, sort_releases, sorting_orders_and_keeps_all};
use crate::releases::{
    is_recent, recent, ReleaseScanPhase, ReleaseScanProgress, RELEASE_ALBUM_BATCH,
    RELEASE_ARTIST_WORKERS,
};
use crate::request::HttpRequest;
use crate::sets::{with_all, with_all_is_a_union, TextSet};
use crate::text::{
    rank_texts, same_text, text_below, text_order_is_total, text_order_is_transitive, texts, Rank,
};

verus! {

// ---- followed artists --------------------------------------------------------

/// Walking the followed artists by cursor.
pub struct FollowedWalk {
    pub artists: TextSet,
    pub after: Option<String>,
}

/// The ids of artists, without the empty ones.
pub open spec fn artist_ids(artists: Seq<Artist>) -> Seq<Seq<char>>
    decreases artists.len(),
{
    if artists.len() == 0 {
        Seq::empty()
    } else {
        let before = artist_ids(artists.drop_last());
        if artists.last().id@.len() > 0 {
            before.push(artists.last().id@)
        } else {
            before
        }
    }
}

/// Whether a page of followed artists is the last: it names no next cursor,
/// or the one it was asked for, or it is empty.
pub open spec fn last_followed_page(after: Option<String>, page: CursorPage<Artist>) -> bool {
    ||| page.after_spec() is None
    ||| text_of(page.after_spec()) == text_of(after)
    ||| page.items@.len() == 0
}

impl FollowedWalk {
    pub fn new() -> (walk: FollowedWalk)
        ensures
            walk.artists.wf(),
            walk.artists.list() == Seq::<Seq<char>>::empty(),
            walk.after is None,
    {
        FollowedWalk { artists: TextSet::new(), after: None }
    }

    /// Takes a page. True when another has to be asked for, at `after`.
    pub fn add_page(&mut self, page: CursorPage<Artist>) -> (more: bool)
        requires
            old(self).artists.wf(),
        ensures
            final(self).artists.wf(),
            final(self).artists.list() == with_all(
                old(self).artists.list(),
                artist_ids(page.items@),
            ),
            more == !last_followed_page(old(self).after, page),
            final(self).after == if more {
                page.after_spec()
            } else {
                old(self).after
            },
    {
        let ghost start = self.artists.list();
        let items = page.items;
        let mut i: usize = 0;
        assert(items@.take(0) =~= Seq::<Artist>::empty());
        while i < items.len()
            invariant
                i <= items@.len(),
                self.artists.wf(),
                self.after == old(self).after,
                self.artists.list() == with_all(start, artist_ids(items@.take(i as int))),
            decreases items.len() - i,
        {
            proof {
                assert(items@.take(i + 1).drop_last() =~= items@.take(i as int));
                let before = artist_ids(items@.take(i as int));
                assert(before.push(items@[i as int].id@).drop_last() =~= before);
            }
            if !items[i].id.as_str().is_empty() {
                self.artists.insert(items[i].id.clone());
            }
            i += 1;
        }
        assert(items@.take(i as int) =~= items@);
        if items.len() == 0 {
            return false;
        }
        let next = match page.cursors {
            Some(cursors) => cursors.after,
            None => None,
        };
        match next {
            None => false,
            Some(next) => {
                let repeated = match &self.after {
                    Some(after) => same_text(next.as_str(), after.as_str()),
                    None => false,
                };
                if repeated {
                    false
                } else {
                    self.after = Some(next);
                    true
                }
            },
        }
    }
}

// ---- library pages -----------------------------------------------------------

/// How many entries the pages behind the first hold: as many as the first
/// says or holds, and at least one.
pub open spec fn page_size<T>(first: Page<T>) -> u32 {
    let held = first.items.len() as u32;
    let most = if first.limit >= held {
        first.limit
    } else {
        held
    };
    if most == 0 {
        1
    } else {
        most
    }
}

/// How many pages of `size` cover what lies from `start` up to `total`.
pub open spec fn page_count(start: u32, total: u32, size: u32) -> nat {
    if start >= total {
        0
    } else {
        ((total - start + size - 1) / size as int) as nat
    }
}

/// Where the pages behind the first begin.
pub open spec fn page_starts(start: u32, total: u32, size: u32) -> Seq<u32> {
    Seq::new(page_count(start, total, size), |k: int| (start + k * size) as u32)
}

/// The pages that are still to be asked for once the first has come: their
/// size, and where each begins.
pub fn remaining_pages<T>(first: &Page<T>) -> (r: (u32, Vec<u32>))
    ensures
        r.0 == page_size(*first),
        r.1@ == match first.next_offset_spec() {
            Some(start) => page_starts(start, first.total, page_size(*first)),
            None => Seq::<u32>::empty(),
        },
{
    let held: u32 = first.items.len() as u32;
    let most: u32 = if first.limit >= held {
        first.limit
    } else {
        held
    };
    let size: u32 = if most == 0 {
        1
    } else {
        most
    };
    let mut starts: Vec<u32> = Vec::new();
    match first.next_offset() {
        None => {},
        Some(start) => {
            let total = first.total;
            let mut at: u64 = start as u64;
            let ghost mut k: int = 0;
            while at < total as u64
                invariant
                    size > 0,
                    at == start + k * size,
                    k >= 0,
                    starts@.len() == k,
                    forall|i: int| 0 <= i < k ==> #[trigger] starts@[i] == (start + i * size) as u32,
                    k > 0 ==> start + (k - 1) * size < total,
                decreases total + size - at,
            {
                starts.push(at as u32);
                proof {
                    assert((k + 1) * size == k * size + size) by (nonlinear_arith);
                    k = k + 1;
                }
                at = at + size as u64;
            }
            proof {
                if start < total {
                    assert(k > 0);
                    counted_pages(start as int, total as int, size as int, k);
                } else if k > 0 {
                    assert((k - 1) * size >= 0) by (nonlinear_arith)
                        requires
                            k >= 1,
                            size > 0,
                    ;
                }
                assert(starts@ =~= page_starts(start, total, size));
            }
        },
    }
    (size, starts)
}

proof fn counted_pages(start: int, total: int, size: int, k: int)
    requires
        size > 0,
        start < total,
        k > 0,
        start + (k - 1) * size < total,
        start + k * size >= total,
    ensures
        (total - start + size - 1) / size == k,
{
    assert((total - start + size - 1) / size == k) by (nonlinear_arith)
        requires
            size > 0,
            k > 0,
            start + (k - 1) * size < total,
            start + k * size >= total,
    ;
}

/// Every entry between the first page and the end of the list lies on exactly
/// one of the pages asked for.
pub proof fn the_pages_cover_the_library(start: u32, total: u32, size: u32, position: u32)
    requires
        size > 0,
        start <= position < total,
    ensures
        exists|k: int|
            0 <= k < page_starts(start, total, size).len() && (#[trigger] page_starts(
                start,
                total,
                size,
            )[k]) <= position < page_starts(start, total, size)[k] + size,
        forall|j: int, k: int|
            0 <= j < k < page_starts(start, total, size).len() ==> (#[trigger] page_starts(
                start,
                total,
                size,
            )[j]) + size <= #[trigger] page_starts(start, total, size)[k],
{
    let starts = page_starts(start, total, size);
    let n = starts.len() as int;
    let span = total - start + size - 1;
    assert(n == span / size as int);
    assert(n * size <= span < n * size + size) by (nonlinear_arith)
        requires
            size > 0,
            n == span / size as int,
    ;
    assert forall|k: int| 0 <= k < n implies start + k * size < total && (#[trigger] starts[k])
        == start + k * size by {
        assert(k * size <= (n - 1) * size) by (nonlinear_arith)
            requires
                k <= n - 1,
                size > 0,
        ;
        assert((n - 1) * size == n * size - size) by (nonlinear_arith);
        assert(k * size >= 0) by (nonlinear_arith)
            requires
                k >= 0,
                size > 0,
        ;
    }
    let k = (position - start) / size as int;
    assert(0 <= k && k * size <= position - start < k * size + size) by (nonlinear_arith)
        requires
            size > 0,
            k == (position - start) / size as int,
            position >= start,
    ;
    assert(k < n) by (nonlinear_arith)
        requires
            size > 0,
            k * size <= position - start,
            position < total,
            span == total - start + size - 1,
            span < n * size + size,
            n * size <= span,
    ;
    assert(starts[k] == start + k * size);
    assert forall|i: int, j: int| 0 <= i < j < n implies (#[trigger] starts[i]) + size
        <= #[trigger] starts[j] by {
        assert(i * size + size <= j * size) by (nonlinear_arith)
            requires
                i + 1 <= j,
                size > 0,
        ;
        assert(starts[i] == start + i * size);
        assert(starts[j] == start + j * size);
    }
}

// ---- the artists of a scan -----------------------------------------------------

/// Whether texts stand in order, each once.
pub open spec fn ascending(list: Seq<Seq<char>>) -> bool {
    forall|i: int, j: int|
        0 <= i < j < list.len() ==> text_below(#[trigger] list[i], #[trigger] list[j])
}

fn insert_sorted(list: &mut Vec<String>, text: &String)
    requires
        ascending(texts(old(list)@)),
    ensures
        ascending(texts(final(list)@)),
        texts(final(list)@).to_set() == texts(old(list)@).to_set().insert(text@),
{
    let ghost before = texts(list@);
    let mut at: usize = 0;
    while at < list.len() && rank_texts(list[at].as_str(), text.as_str()) == Rank::Before
        invariant
            before == texts(list@),
            *list == *old(list),
            at <= list@.len(),
            forall|k: int| 0 <= k < at ==> text_below(#[trigger] before[k], text@),
        decreases list.len() - at,
    {
        at += 1;
    }
    if at < list.len() && same_text(list[at].as_str(), text.as_str()) {
        assert(before[at as int] == text@);
        assert(before.to_set() =~= before.to_set().insert(text@));
        return;
    }
    list.insert(at, text.clone());
    proof {
        let after = texts(list@);
        assert(after =~= before.insert(at as int, text@));
        assert forall|k: int| at <= k < before.len() implies text_below(
            text@,
            #[trigger] before[k],
        ) by {
            text_order_is_total(before[at as int], text@);
            if k > at {
                text_order_is_transitive(text@, before[at as int], before[k]);
            }
        }
        assert forall|i: int, j: int| 0 <= i < j < after.len() implies text_below(
            #[trigger] after[i],
            #[trigger] after[j],
        ) by {
            let m = if i < at {
                i
            } else {
                i - 1
            };
            let n = if j < at {
                j
            } else {
                j - 1
            };
            if i < at && j > at {
                assert(after[i] == before[i] && after[j] == before[n]);
            } else if j < at {
                assert(after[i] == before[i] && after[j] == before[j]);
            } else if i > at {
                assert(after[i] == before[m] && after[j] == before[n]);
            } else if i == at {
                assert(after[j] == before[n]);
            } else {
                assert(after[i] == before[i]);
            }
        }
        assert forall|t: Seq<char>| after.to_set().contains(t) == before.to_set().insert(
            text@,
        ).contains(t) by {
            if before.contains(t) {
                let k = before.index_of(t);
                assert(after[if k < at {
                    k
                } else {
                    k + 1
                }] == t);
            }
            assert(after[at as int] == text@);
            if after.contains(t) && t != text@ {
                let k = after.index_of(t);
                assert(before[if k < at {
                    k
                } else {
                    k - 1
                }] == t);
            }
        }
        assert(after.to_set() =~= before.to_set().insert(text@));
    }
}

fn insert_all(list: &mut Vec<String>, more: &TextSet)
    requires
        ascending(texts(old(list)@)),
    ensures
        ascending(texts(final(list)@)),
        texts(final(list)@).to_set() == texts(old(list)@).to_set().union(more@),
{
    let ghost before = texts(list@).to_set();
    let mut i: usize = 0;
    assert(more.list().take(0).to_set() =~= Set::empty());
    assert(before.union(Set::empty()) =~= before);
    while i < more.len()
        invariant
            i <= more.list().len(),
            ascending(texts(list@)),
            texts(list@).to_set() == before.union(more.list().take(i as int).to_set()),
        decreases more.list().len() - i,
    {
        insert_sorted(list, more.get(i));
        proof {
            let (a, b) = (more.list().take(i as int), more.list().take(i + 1));
            assert(b =~= a.push(more.list()[i as int]));
            assert forall|t: Seq<char>| b.to_set().contains(t) == a.to_set().insert(
                more.list()[i as int],
            ).contains(t) by {
                if a.contains(t) {
                    assert(b[a.index_of(t)] == t);
                }
                assert(b[i as int] == more.list()[i as int]);
            }
            assert(b.to_set() =~= a.to_set().insert(more.list()[i as int]));
            assert(texts(list@).to_set() =~= before.union(b.to_set()));
        }
        i += 1;
    }
    assert(more.list().take(i as int) =~= more.list());
}

/// The artists of all sources together, in order, each once.
pub fn collect_artists(followed: &TextSet, saved: &TextSet, liked: &TextSet) -> (r: Vec<String>)
    ensures
        ascending(texts(r@)),
        texts(r@).to_set() == followed@.union(saved@).union(liked@),
{
    let mut list: Vec<String> = Vec::new();
    assert(texts(list@).to_set() =~= Set::empty());
    insert_all(&mut list, followed);
    assert(Set::<Seq<char>>::empty().union(followed@) =~= followed@);
    insert_all(&mut list, saved);
    insert_all(&mut list, liked);
    list
}

// ---- an artist's albums ---------------------------------------------------------

/// Walking the albums of one artist, keeping the recent ones.
pub struct AlbumWalk {
    pub artist_id: String,
    pub offset: u32,
    pub found: Vec<Album>,
}

/// The albums of a page that were released in the period.
pub open spec fn recent_albums(
    albums: Seq<Album>,
    cutoff: Seq<char>,
    tomorrow: Seq<char>,
) -> Seq<Album> {
    albums.filter(|album: Album| recent(text_of(album.release_date), cutoff, tomorrow))
}

/// Whether all of some albums were released in the period.
pub open spec fn all_recent(albums: Seq<Album>, cutoff: Seq<char>, tomorrow: Seq<char>) -> bool {
    forall|i: int|
        0 <= i < albums.len() ==> recent(
            text_of((#[trigger] albums[i]).release_date),
            cutoff,
            tomorrow,
        )
}

impl AlbumWalk {
    /// The page to ask for.
    pub fn next_page(&self, client: &ApiClient) -> (r: HttpRequest)
        ensures
            r@ == artist_albums_page(
                self.artist_id@,
                "album,single,compilation,appears_on"@,
                at_most(50, client.artist_albums_limit),
                self.offset,
            ),
    {
        client.artist_albums(
            self.artist_id.as_str(),
            "album,single,compilation,appears_on",
            self.offset,
            50,
        )
    }

    pub fn new(artist_id: String) -> (walk: AlbumWalk)
        ensures
            walk.artist_id == artist_id,
            walk.offset == 0,
            walk.found@ == Seq::<Album>::empty(),
    {
        AlbumWalk { artist_id, offset: 0, found: Vec::new() }
    }

    /// Takes the page at `offset`. True when another has to be asked for.
    pub fn add_page(&mut self, page: Page<Album>, cutoff: &str, tomorrow: &str) -> (more: bool)
        ensures
            final(self).artist_id == old(self).artist_id,
            final(self).found@ == old(self).found@ + recent_albums(
                page.items@,
                cutoff@,
                tomorrow@,
            ),
            all_recent(old(self).found@, cutoff@, tomorrow@) ==> all_recent(
                final(self).found@,
                cutoff@,
                tomorrow@,
            ),
            more == (page.next_offset_spec() matches Some(next) && next > old(self).offset),
            final(self).offset == if more {
                page.next_offset_spec()->0
            } else {
                old(self).offset
            },
    {
        let next = page.next_offset();
        let ghost kept = |album: Album| recent(text_of(album.release_date), cutoff@, tomorrow@);
        let ghost all = page.items@;
        let ghost start = self.found@;
        let mut items = page.items;
        let n: usize = items.len();
        let mut i: usize = 0;
        proof {
            reveal(Seq::filter);
            assert(all.take(0) =~= Seq::<Album>::empty());
            assert(all.skip(0) =~= all);
            assert(start + all.take(0).filter(kept) =~= start);
        }
        while i < n
            invariant
                n == all.len(),
                i <= n,
                items@ == all.skip(i as int),
                kept == (|album: Album|
                    recent(text_of(album.release_date), cutoff@, tomorrow@)),
                self.artist_id == old(self).artist_id,
                self.offset == old(self).offset,
                self.found@ == start + all.take(i as int).filter(kept),
            decreases n - i,
        {
            let album = items.remove(0);
            proof {
                reveal(Seq::filter);
                assert(all.skip(i as int).remove(0) =~= all.skip(i + 1));
                assert(all.take(i + 1).drop_last() =~= all.take(i as int));
                assert(all.take(i + 1).last() == album);
                let held = all.take(i as int).filter(kept);
                assert((start + held).push(album) =~= start + held.push(album));
            }
            if is_recent(&album.release_date, cutoff, tomorrow) {
                self.found.push(album);
            }
            i += 1;
        }
        assert(all.take(i as int) =~= all);
        proof {
            broadcast use vstd::seq_lib::group_filter_ensures;
            let more = all.filter(kept);
            assert forall|k: int|
                all_recent(start, cutoff@, tomorrow@) && 0 <= k < self.found@.len() implies recent(
                text_of((#[trigger] self.found@[k]).release_date),
                cutoff@,
                tomorrow@,
            ) by {
                if k >= start.len() {
                    assert(kept(more[k - start.len()]));
                }
            }
        }
        match next {
            Some(next) => {
                if next > self.offset {
                    self.offset = next;
                    true
                } else {
                    false
                }
            },
            None => false,
        }
    }
}

// ---- matched releases ------------------------------------------------------------

/// How an album stands to an artist: their own album first, an appearance on
/// somebody else's last.
pub open spec fn group_rank(group: Option<Seq<char>>) -> u8 {
    if group == Some("album"@) {
        0
    } else if group == Some("single"@) {
        1
    } else if group == Some("compilation"@) {
        2
    } else if group == Some("appears_on"@) {
        3
    } else {
        4
    }
}

pub fn release_group_rank(group: &Option<String>) -> (rank: u8)
    ensures
        rank == group_rank(text_of(*group)),
{
    match group {
        None => 4,
        Some(group) => {
            let text = group.as_str();
            if same_text(text, "album") {
                0
            } else if same_text(text, "single") {
                1
            } else if same_text(text, "compilation") {
                2
            } else if same_text(text, "appears_on") {
                3
            } else {
                4
            }
        },
    }
}

/// The group that counts of two: the better one, and the held one of equals.
pub open spec fn preferred_group(held: Option<String>, candidate: Option<String>) -> Option<
    String,
> {
    if group_rank(text_of(candidate)) < group_rank(text_of(held)) {
        candidate
    } else {
        held
    }
}

/// Keeps the better of the groups under which a release was found.
pub fn prefer_release_group(held: &mut Album, candidate: &Album)
    ensures
        *final(held) == (Album {
            album_group: preferred_group(old(held).album_group, candidate.album_group),
            ..*old(held)
        }),
{
    if release_group_rank(&candidate.album_group) < release_group_rank(&held.album_group) {
        held.album_group = clone_text(&candidate.album_group);
    }
}

/// A release and the selected artists who are on it.
pub struct MatchedRelease {
    pub album: Album,
    pub artist_ids: TextSet,
}

/// A found release as plain values.
#[verifier::ext_equal]
pub struct ReleaseModel {
    pub album: Album,
    pub artists: Seq<Seq<char>>,
}

impl MatchedRelease {
    pub open spec fn view(&self) -> ReleaseModel {
        ReleaseModel { album: self.album, artists: self.artist_ids.list() }
    }
}

/// The found releases as plain values.
pub open spec fn found(releases: Seq<MatchedRelease>) -> Seq<ReleaseModel> {
    Seq::new(releases.len(), |i: int| releases[i]@)
}

/// Whether a release with this id was found.
pub open spec fn has_release(releases: Seq<ReleaseModel>, id: Seq<char>) -> bool {
    exists|i: int| 0 <= i < releases.len() && (#[trigger] releases[i]).album.id@ == id
}

/// Every id stands once, and every list of artists holds each once.
pub open spec fn releases_wf(releases: Seq<ReleaseModel>) -> bool {
    &&& forall|i: int, j: int|
        0 <= i < j < releases.len() ==> (#[trigger] releases[i]).album.id@ != (
        #[trigger] releases[j]).album.id@
    &&& forall|i: int| 0 <= i < releases.len() ==> (#[trigger] releases[i]).artists.no_duplicates()
}

/// A found release, found once more through another artist.
pub open spec fn found_again(
    release: ReleaseModel,
    artist_id: Seq<char>,
    album: Album,
) -> ReleaseModel {
    ReleaseModel {
        album: Album {
            album_group: preferred_group(release.album.album_group, album.album_group),
            ..release.album
        },
        artists: with_all(release.artists, seq![artist_id]),
    }
}

/// What finding an album through an artist leaves.
pub open spec fn matched(
    releases: Seq<ReleaseModel>,
    artist_id: Seq<char>,
    album: Album,
) -> Seq<ReleaseModel> {
    if has_release(releases, album.id@) {
        Seq::new(
            releases.len(),
            |i: int|
                if releases[i].album.id@ == album.id@ {
                    found_again(releases[i], artist_id, album)
                } else {
                    releases[i]
                },
        )
    } else {
        releases.push(ReleaseModel { album, artists: seq![artist_id] })
    }
}

/// The position of the release with an id.
pub fn find_release(releases: &Vec<MatchedRelease>, id: &str) -> (r: Option<usize>)
    ensures
        r is Some == has_release(found(releases@), id@),
        r matches Some(at) ==> at < releases@.len() && releases@[at as int].album.id@ == id@ && (
        forall|k: int| 0 <= k < at ==> (#[trigger] releases@[k]).album.id@ != id@),
{
    let mut i: usize = 0;
    while i < releases.len()
        invariant
            i <= releases@.len(),
            forall|k: int| 0 <= k < i ==> (#[trigger] releases@[k]).album.id@ != id@,
        decreases releases.len() - i,
    {
        if same_text(releases[i].album.id.as_str(), id) {
            assert(found(releases@)[i as int].album.id@ == id@);
            return Some(i);
        }
        i += 1;
    }
    proof {
        if has_release(found(releases@), id@) {
            let k = choose|k: int|
                0 <= k < found(releases@).len() && (#[trigger] found(releases@)[k]).album.id@ == id@;
            assert(releases@[k].album.id@ == id@);
        }
    }
    None
}

/// Remembers a release found through an artist. One found before keeps its
/// place, takes the better group, and remembers the artist too.
pub fn add_matched_release(releases: &mut Vec<MatchedRelease>, artist_id: &str, album: Album)
    requires
        releases_wf(found(old(releases)@)),
    ensures
        releases_wf(found(final(releases)@)),
        found(final(releases)@) == matched(found(old(releases)@), artist_id@, album),
{
    let ghost before = found(releases@);
    proof {
        reveal_with_fuel(with_all, 2);
        assert(seq![artist_id@].drop_last() =~= Seq::<Seq<char>>::empty());
    }
    match find_release(releases, album.id.as_str()) {
        Some(at) => {
            let mut held = releases.remove(at);
            prefer_release_group(&mut held.album, &album);
            held.artist_ids.insert(artist_id.to_owned());
            releases.insert(at, held);
            proof {
                let after = found(releases@);
                assert(after =~= matched(before, artist_id@, album)) by {
                    assert(after.len() == before.len());
                    assert forall|i: int| 0 <= i < after.len() implies after[i] == matched(
                        before,
                        artist_id@,
                        album,
                    )[i] by {
                        if i == at {
                            assert(before[i].artists.no_duplicates());
                            assert(after[i] =~= found_again(before[i], artist_id@, album));
                        } else {
                            assert(after[i] == before[i]);
                            assert(before[at as int].album.id@ == album.id@);
                        }
                    }
                }
                assert forall|i: int| 0 <= i < after.len() implies (
                #[trigger] after[i]).artists.no_duplicates() by {
                    with_all_is_a_union(before[i].artists, seq![artist_id@]);
                }
            }
        },
        None => {
            let mut artist_ids = TextSet::new();
            artist_ids.insert(artist_id.to_owned());
            assert(artist_ids.list() =~= seq![artist_id@]);
            releases.push(MatchedRelease { album, artist_ids });
            proof {
                let after = found(releases@);
                assert(after =~= matched(before, artist_id@, album));
                assert forall|i: int, j: int| 0 <= i < j < after.len() implies (
                #[trigger] after[i]).album.id@ != (#[trigger] after[j]).album.id@ by {
                    assert(after[i] == before[i]);
                    if j < before.len() {
                        assert(after[j] == before[j]);
                    }
                }
                assert forall|i: int| 0 <= i < after.len() implies (
                #[trigger] after[i]).artists.no_duplicates() by {
                    if i < before.len() {
                        assert(after[i] == before[i]);
                    }
                }
            }
        },
    }
}

/// What finding albums through an artist, one after the other, leaves.
pub open spec fn all_matched(
    releases: Seq<ReleaseModel>,
    artist_id: Seq<char>,
    albums: Seq<Album>,
) -> Seq<ReleaseModel>
    decreases albums.len(),
{
    if albums.len() == 0 {
        releases
    } else {
        matched(all_matched(releases, artist_id, albums.drop_last()), artist_id, albums.last())
    }
}

/// An album found through an artist.
pub ghost struct Find {
    pub artist: Seq<char>,
    pub album: Album,
}

/// Whether all albums were released in the period, as they were found.
pub open spec fn found_recent(finds: Seq<Find>, cutoff: Seq<char>, tomorrow: Seq<char>) -> bool {
    forall|i: int|
        0 <= i < finds.len() ==> recent(
            text_of((#[trigger] finds[i]).album.release_date),
            cutoff,
            tomorrow,
        )
}

/// What a row of finds leaves.
pub open spec fn collected(finds: Seq<Find>) -> Seq<ReleaseModel>
    decreases finds.len(),
{
    if finds.len() == 0 {
        Seq::empty()
    } else {
        matched(collected(finds.drop_last()), finds.last().artist, finds.last().album)
    }
}

/// Whether an album with an id was found through an artist.
pub open spec fn listed(finds: Seq<Find>, artist: Seq<char>, id: Seq<char>) -> bool {
    exists|i: int|
        0 <= i < finds.len() && (#[trigger] finds[i]).artist == artist && finds[i].album.id@ == id
}

proof fn finds_are_collected(finds: Seq<Find>, i: int)
    requires
        0 <= i < finds.len(),
    ensures
        has_release(collected(finds), finds[i].album.id@),
    decreases finds.len(),
{
    let before = collected(finds.drop_last());
    let after = collected(finds);
    if i < finds.len() - 1 {
        finds_are_collected(finds.drop_last(), i);
        let k = choose|k: int|
            0 <= k < before.len() && (#[trigger] before[k]).album.id@ == finds[i].album.id@;
        assert(after[k].album.id@ == before[k].album.id@);
    } else if has_release(before, finds[i].album.id@) {
        let k = choose|k: int|
            0 <= k < before.len() && (#[trigger] before[k]).album.id@ == finds[i].album.id@;
        assert(after[k].album.id@ == before[k].album.id@);
    } else {
        assert(after[before.len() as int].album.id@ == finds[i].album.id@);
    }
}

/// A release was listed by each of the artists that it is kept with, of which
/// there is one at least. Its group is the best under which it was found, and
/// one of them.
pub proof fn releases_were_listed(finds: Seq<Find>, k: int, artist: Seq<char>, find: int)
    requires
        0 <= k < collected(finds).len(),
    ensures
        ({
            let release = collected(finds)[k];
            let id = release.album.id@;
            let group = release.album.album_group;
            &&& release.artists.len() > 0
            &&& release.artists.contains(artist) ==> listed(finds, artist, id)
            &&& 0 <= find < finds.len() && finds[find].album.id@ == id ==> group_rank(
                text_of(group),
            ) <= group_rank(text_of(finds[find].album.album_group))
            &&& exists|i: int|
                0 <= i < finds.len() && (#[trigger] finds[i]).album.id@ == id
                    && finds[i].album.album_group == group
        }),
    decreases finds.len(),
{
    let earlier = finds.drop_last();
    let before = collected(earlier);
    let last = finds.last();
    let end = finds.len() - 1;
    let release = collected(finds)[k];
    let id = release.album.id@;
    if k < before.len() {
        releases_were_listed(earlier, k, artist, find);
        let held = before[k];
        assert(held.album.id@ == id);
        let source = choose|i: int|
            0 <= i < earlier.len() && (#[trigger] earlier[i]).album.id@ == id
                && earlier[i].album.album_group == held.album.album_group;
        assert(finds[source] == earlier[source]);
        if held.artists.contains(artist) {
            let by = choose|i: int|
                0 <= i < earlier.len() && (#[trigger] earlier[i]).artist == artist
                    && earlier[i].album.id@ == id;
            assert(finds[by] == earlier[by]);
        }
        if held.album.id@ == last.album.id@ {
            assert(has_release(before, last.album.id@));
            with_all_is_a_union(held.artists, seq![last.artist]);
            assert(finds[end].artist == last.artist && finds[end].album.id@ == id);
            if release.artists.contains(artist) && !held.artists.contains(artist) {
                assert(release.artists.to_set().contains(artist));
                assert(seq![last.artist].to_set().contains(artist));
                assert(artist == last.artist);
            }
            assert(held.artists.contains(held.artists[0]));
            assert(release.artists.to_set().contains(held.artists[0]));
            if release.album.album_group != held.album.album_group {
                assert(release.album.album_group == finds[end].album.album_group);
            }
        }
    } else {
        assert(release == ReleaseModel { album: last.album, artists: seq![last.artist] });
        assert(finds[end].album.id@ == id);
        assert(seq![last.artist].contains(artist) ==> artist == last.artist);
        if 0 <= find < end && finds[find].album.id@ == id {
            finds_are_collected(earlier, find);
            assert(earlier[find] == finds[find]);
        }
    }
}

/// Of the groups under which a release is found, the best one is kept.
pub proof fn the_best_group_is_kept(held: Option<String>, candidate: Option<String>)
    ensures
        group_rank(text_of(preferred_group(held, candidate))) <= group_rank(text_of(held)),
        group_rank(text_of(preferred_group(held, candidate))) <= group_rank(text_of(candidate)),
        preferred_group(held, candidate) == held || preferred_group(held, candidate) == candidate,
{
}

// ---- the tracks of a release ----------------------------------------------------

/// Whether one of the selected artists is credited on a track.
pub open spec fn by_selected(track: Track, artist_ids: Seq<Seq<char>>) -> bool {
    exists|i: int|
        0 <= i < track.artists@.len() && (#[trigger] track.artists@[i]).id is Some
            && artist_ids.contains(track.artists@[i].id->0@)
}

fn is_by_selected(track: &Track, artist_ids: &TextSet) -> (r: bool)
    ensures
        r == by_selected(*track, artist_ids.list()),
{
    let mut i: usize = 0;
    while i < track.artists.len()
        invariant
            i <= track.artists@.len(),
            forall|k: int|
                0 <= k < i ==> !((#[trigger] track.artists@[k]).id is Some
                    && artist_ids.list().contains(track.artists@[k].id->0@)),
        decreases track.artists.len() - i,
    {
        match &track.artists[i].id {
            Some(id) => {
                if artist_ids.contains(id.as_str()) {
                    return true;
                }
            },
            None => {},
        }
        i += 1;
    }
    false
}

/// The tracks that a selected artist is on.
pub open spec fn selected_tracks(tracks: Seq<Track>, artist_ids: Seq<Seq<char>>) -> Seq<Track> {
    tracks.filter(|track: Track| by_selected(track, artist_ids))
}

/// Keeps the tracks that a selected artist is on, as the one page there is.
pub fn retain_matching_release_tracks(album: &mut Album, artist_ids: &TextSet)
    ensures
        old(album).tracks is None ==> *final(album) == *old(album),
        old(album).tracks is Some ==> {
            &&& final(album).tracks is Some
            &&& final(album).tracks->0.items@ == selected_tracks(
                old(album).tracks->0.items@,
                artist_ids.list(),
            )
            &&& final(album).tracks->0.total == final(album).tracks->0.items.len() as u32
            &&& final(album).tracks->0.limit == final(album).tracks->0.total
            &&& final(album).tracks->0.offset == 0
            &&& final(album).tracks->0.next is None
            &&& *final(album) == (Album { tracks: final(album).tracks, ..*old(album) })
        },
{
    match album.tracks.take() {
        None => {},
        Some(tracks) => {
            let ghost all = tracks.items@;
            let ghost kept = |track: Track| by_selected(track, artist_ids.list());
            let mut rest = tracks.items;
            let mut items: Vec<Track> = Vec::new();
            let n: usize = rest.len();
            let mut i: usize = 0;
            proof {
                reveal(Seq::filter);
                assert(all.take(0) =~= Seq::<Track>::empty());
                assert(all.skip(0) =~= all);
            }
            while i < n
                invariant
                    n == all.len(),
                    i <= n,
                    rest@ == all.skip(i as int),
                    kept == (|track: Track| by_selected(track, artist_ids.list())),
                    items@ == all.take(i as int).filter(kept),
                decreases n - i,
            {
                let track = rest.remove(0);
                proof {
                    reveal(Seq::filter);
                    assert(all.skip(i as int).remove(0) =~= all.skip(i + 1));
                    assert(all.take(i + 1).drop_last() =~= all.take(i as int));
                    assert(all.take(i + 1).last() == track);
                }
                if is_by_selected(&track, artist_ids) {
                    items.push(track);
                }
                i += 1;
            }
            assert(all.take(i as int) =~= all);
            let total: u32 = items.len() as u32;
            album.tracks = Some(Page { items, total, limit: total, offset: 0, next: None });
        },
    }
}

/// Only tracks of the selected artists are kept, and all of them.
pub proof fn kept_tracks_are_by_selected_artists(
    tracks: Seq<Track>,
    artist_ids: Seq<Seq<char>>,
    track: Track,
)
    ensures
        selected_tracks(tracks, artist_ids).contains(track) == (tracks.contains(track)
            && by_selected(track, artist_ids)),
{
    broadcast use vstd::seq_lib::group_filter_ensures;
    let keep = |track: Track| by_selected(track, artist_ids);
    let kept = tracks.filter(keep);
    if kept.contains(track) {
        let k = kept.index_of(track);
        assert(keep(kept[k]));
        kept_was_there(tracks, keep, track);
    }
    if tracks.contains(track) && by_selected(track, artist_ids) {
        let k = tracks.index_of(track);
        assert(keep(tracks[k]));
        assert(kept.contains(tracks[k]));
    }
}

proof fn kept_was_there(tracks: Seq<Track>, keep: spec_fn(Track) -> bool, track: Track)
    requires
        tracks.filter(keep).contains(track),
    ensures
        tracks.contains(track),
    decreases tracks.len(),
{
    reveal(Seq::filter);
    if tracks.len() > 0 {
        let shorter = tracks.drop_last();
        let k = tracks.filter(keep).index_of(track);
        assert(tracks.filter(keep)[k] == track);
        if k < shorter.filter(keep).len() {
            assert(shorter.filter(keep)[k] == track);
            kept_was_there(shorter, keep, track);
            let m = shorter.index_of(track);
            assert(tracks[m] == track);
        } else {
            assert(tracks[tracks.len() - 1] == track);
        }
    }
}

/// Loading all tracks of an album, page by page.
pub struct TrackWalk {
    pub album: Album,
    /// The tracks so far; `None` before the first page.
    pub tracks: Option<Page<Track>>,
    /// Where the next page begins, when there is one.
    pub wanted: Option<u32>,
}

impl TrackWalk {
    /// Starts with the tracks that came with the album.
    pub fn new(album: Album) -> (walk: TrackWalk)
        ensures
            walk.album == (Album { tracks: None, ..album }),
            walk.tracks == album.tracks,
            walk.wanted == match album.tracks {
                Some(tracks) => tracks.next_offset_spec(),
                None => Some(0u32),
            },
    {
        let mut album = album;
        let tracks = album.tracks.take();
        let wanted = match &tracks {
            Some(tracks) => tracks.next_offset(),
            None => Some(0),
        };
        TrackWalk { album, tracks, wanted }
    }

    /// The page to ask for, when one is missing.
    pub fn next_page(&self, client: &ApiClient) -> (r: Option<HttpRequest>)
        ensures
            match self.wanted {
                Some(offset) => r is Some && r->0@ == paged(
                    path2("/albums/"@, self.album.id@, "/tracks"@),
                    50,
                    offset,
                ),
                None => r is None,
            },
    {
        match self.wanted {
            Some(offset) => Some(client.album_tracks(self.album.id.as_str(), offset, 50)),
            None => None,
        }
    }

    /// Takes the page at `wanted`.
    pub fn add_page(&mut self, page: Page<Track>)
        requires
            old(self).wanted is Some,
        ensures
            final(self).album == old(self).album,
            final(self).wanted == page.next_offset_spec(),
            match old(self).tracks {
                None => final(self).tracks == Some(page),
                Some(held) => final(self).tracks is Some && {
                    let now = final(self).tracks->0;
                    &&& now.items@ == held.items@ + page.items@
                    &&& now.total == page.total
                    &&& now.limit == now.items.len() as u32
                    &&& now.offset == held.offset
                    &&& now.next == page.next
                },
            },
    {
        self.wanted = page.next_offset();
        match self.tracks.take() {
            None => {
                self.tracks = Some(page);
            },
            Some(held) => {
                let mut items = held.items;
                let mut more = page.items;
                items.append(&mut more);
                let limit: u32 = items.len() as u32;
                self.tracks = Some(
                    Page { items, total: page.total, limit, offset: held.offset, next: page.next },
                );
            },
        }
    }

    /// The album with its tracks, each of which names the album.
    pub fn finish(self) -> (album: Album)
        requires
            self.tracks is Some,
        ensures
            album.tracks is Some,
            album == (Album { tracks: album.tracks, ..self.album }),
            ({
                let (before, after) = (self.tracks->0, album.tracks->0);
                &&& after.total == before.total
                &&& after.limit == before.limit
                &&& after.offset == before.offset
                &&& after.next == before.next
                &&& after.items@.len() == before.items@.len()
                &&& forall|i: int|
                    0 <= i < after.items@.len() ==> {
                        &&& (#[trigger] after.items@[i]).album is Some
                        &&& self.album.summarized_by(*after.items@[i].album->0)
                        &&& after.items@[i] == (Track {
                            album: after.items@[i].album,
                            ..before.items@[i]
                        })
                    }
            }),
    {
        let mut album = self.album;
        let tracks = self.tracks.unwrap();
        let summary: Arc<AlbumSummary> = Arc::new(album.summary());
        let ghost all = tracks.items@;
        let mut rest = tracks.items;
        let mut items: Vec<Track> = Vec::new();
        let n: usize = rest.len();
        let mut i: usize = 0;
        assert(all.skip(0) =~= all);
        while i < n
            invariant
                n == all.len(),
                i <= n,
                rest@ == all.skip(i as int),
                items@.len() == i,
                forall|k: int|
                    0 <= k < i ==> #[trigger] items@[k] == (Track {
                        album: Some(summary),
                        ..all[k]
                    }),
            decreases n - i,
        {
            let mut track = rest.remove(0);
            assert(all.skip(i as int).remove(0) =~= all.skip(i + 1));
            track.album = Some(summary.clone());
            items.push(track);
            i += 1;
        }
        album.tracks = Some(
            Page {
                items,
                total: tracks.total,
                limit: tracks.limit,
                offset: tracks.offset,
                next: tracks.next,
            },
        );
        album
    }
}

// ---- the scan ---------------------------------------------------------------------

/// A scan under way: artists to look at, releases found, releases loaded.
pub struct ReleaseScan {
    pub artists: Vec<String>,
    /// How many artists were handed out.
    pub started: usize,
    /// How many artists were looked at.
    pub scanned: usize,
    pub releases: Vec<MatchedRelease>,
    /// How many releases were asked for.
    pub requested: usize,
    /// How many releases were loaded, or turned out to be missing.
    pub loaded: usize,
    pub hydrated: Vec<Album>,
    /// What the artists that were looked at have listed.
    pub finds: Ghost<Seq<Find>>,
}

/// Whether an album is shown as it was found: under the group of its release,
/// with a track at least, and only with tracks of the artists who listed it.
pub open spec fn loaded_well(releases: Seq<ReleaseModel>, album: Album) -> bool {
    exists|k: int|
        0 <= k < releases.len() && (#[trigger] releases[k]).album.id@ == album.id@
            && album.album_group == releases[k].album.album_group && album.tracks is Some
            && album.tracks->0.items@.len() > 0 && forall|t: int|
            0 <= t < album.tracks->0.items@.len() ==> by_selected(
                #[trigger] album.tracks->0.items@[t],
                releases[k].artists,
            )
}

impl ReleaseScan {
    pub open spec fn wf(&self) -> bool {
        &&& releases_wf(found(self.releases@))
        &&& self.scanned <= self.started <= self.artists@.len()
        &&& self.requested <= self.releases@.len()
        &&& found(self.releases@) == collected(self.finds@)
        &&& forall|i: int|
            0 <= i < self.finds@.len() ==> texts(self.artists@).contains(
                (#[trigger] self.finds@[i]).artist,
            )
        &&& self.requested == 0 ==> self.hydrated@.len() == 0
        &&& forall|i: int|
            0 <= i < self.hydrated@.len() ==> loaded_well(
                found(self.releases@),
                #[trigger] self.hydrated@[i],
            )
    }

    /// What is reported while artists are collected.
    pub fn collecting() -> (progress: ReleaseScanProgress)
        ensures
            progress == (ReleaseScanProgress {
                phase: ReleaseScanPhase::CollectingArtists,
                completed: 0,
                total: 0,
                found_releases: 0,
            }),
    {
        ReleaseScanProgress {
            phase: ReleaseScanPhase::CollectingArtists,
            completed: 0,
            total: 0,
            found_releases: 0,
        }
    }

    pub fn new(artists: Vec<String>) -> (scan: ReleaseScan)
        ensures
            scan.wf(),
            scan.artists == artists,
            scan.started == 0,
            scan.scanned == 0,
            scan.releases@.len() == 0,
            scan.requested == 0,
            scan.loaded == 0,
            scan.hydrated@.len() == 0,
            scan.finds@.len() == 0,
    {
        let releases: Vec<MatchedRelease> = Vec::new();
        assert(found(releases@) =~= collected(Seq::empty()));
        ReleaseScan {
            artists,
            started: 0,
            scanned: 0,
            releases,
            requested: 0,
            loaded: 0,
            hydrated: Vec::new(),
            finds: Ghost(Seq::empty()),
        }
    }

    pub open spec fn scanning_spec(&self) -> ReleaseScanProgress {
        ReleaseScanProgress {
            phase: ReleaseScanPhase::ScanningArtists,
            completed: self.scanned,
            total: self.artists@.len() as usize,
            found_releases: self.releases@.len() as usize,
        }
    }

    pub open spec fn loading_spec(&self) -> ReleaseScanProgress {
        ReleaseScanProgress {
            phase: ReleaseScanPhase::LoadingTracks,
            completed: self.loaded,
            total: self.releases@.len() as usize,
            found_releases: self.releases@.len() as usize,
        }
    }

    /// How far the look at the artists has come.
    pub fn scanning(&self) -> (progress: ReleaseScanProgress)
        ensures
            progress == self.scanning_spec(),
    {
        ReleaseScanProgress {
            phase: ReleaseScanPhase::ScanningArtists,
            completed: self.scanned,
            total: self.artists.len(),
            found_releases: self.releases.len(),
        }
    }

    /// How far the loading of releases has come.
    pub fn loading(&self) -> (progress: ReleaseScanProgress)
        ensures
            progress == self.loading_spec(),
    {
        ReleaseScanProgress {
            phase: ReleaseScanPhase::LoadingTracks,
            completed: self.loaded,
            total: self.releases.len(),
            found_releases: self.releases.len(),
        }
    }

    /// Everything but the counter of artists handed out.
    pub open spec fn same_but_started(&self, other: &ReleaseScan) -> bool {
        &&& self.artists == other.artists
        &&& self.scanned == other.scanned
        &&& self.releases == other.releases
        &&& self.requested == other.requested
        &&& self.loaded == other.loaded
        &&& self.hydrated == other.hydrated
        &&& self.finds == other.finds
    }

    /// The next artist to look at, for a worker that is free. No more than a
    /// few are looked at side by side.
    pub fn next_artist(&mut self) -> (artist: Option<String>)
        requires
            old(self).wf(),
        ensures
            final(self).wf(),
            final(self).same_but_started(old(self)),
            if old(self).started < old(self).artists@.len() && old(self).started
                - old(self).scanned < RELEASE_ARTIST_WORKERS {
                &&& artist == Some(old(self).artists@[old(self).started as int])
                &&& final(self).started == old(self).started + 1
            } else {
                &&& artist is None
                &&& final(self).started == old(self).started
            },
    {
        if self.started < self.artists.len() && self.started - self.scanned
            < RELEASE_ARTIST_WORKERS {
            let artist = self.artists[self.started].clone();
            self.started = self.started + 1;
            Some(artist)
        } else {
            None
        }
    }

    /// Takes the recent albums of an artist that was looked at. All artists are
    /// looked at before releases are loaded.
    pub fn artist_scanned(&mut self, artist_id: &str, albums: Vec<Album>) -> (progress:
        ReleaseScanProgress)
        requires
            old(self).wf(),
            old(self).scanned < old(self).started,
            old(self).requested == 0,
            texts(old(self).artists@).contains(artist_id@),
        ensures
            final(self).wf(),
            found(final(self).releases@) == all_matched(
                found(old(self).releases@),
                artist_id@,
                albums@,
            ),
            final(self).scanned == old(self).scanned + 1,
            final(self).artists == old(self).artists,
            final(self).started == old(self).started,
            final(self).requested == old(self).requested,
            final(self).loaded == old(self).loaded,
            final(self).hydrated == old(self).hydrated,
            final(self).finds@ == old(self).finds@ + albums@.map_values(
                |album: Album| Find { artist: artist_id@, album },
            ),
            forall|cutoff: Seq<char>, tomorrow: Seq<char>|
                found_recent(old(self).finds@, cutoff, tomorrow) && all_recent(
                    albums@,
                    cutoff,
                    tomorrow,
                ) ==> #[trigger] found_recent(final(self).finds@, cutoff, tomorrow),
            progress == final(self).scanning_spec(),
    {
        let ghost all = albums@;
        let ghost start = found(self.releases@);
        let ghost earlier = self.finds@;
        let ghost find = |album: Album| Find { artist: artist_id@, album };
        let mut rest = albums;
        let n: usize = rest.len();
        let mut i: usize = 0;
        proof {
            assert(all.take(0) =~= Seq::<Album>::empty());
            assert(all.skip(0) =~= all);
            assert(earlier + all.take(0).map_values(find) =~= earlier);
        }
        while i < n
            invariant
                n == all.len(),
                i <= n,
                rest@ == all.skip(i as int),
                releases_wf(found(self.releases@)),
                found(self.releases@) == all_matched(start, artist_id@, all.take(i as int)),
                self.releases@.len() >= old(self).releases@.len(),
                self.artists == old(self).artists,
                self.started == old(self).started,
                self.scanned == old(self).scanned,
                self.requested == old(self).requested,
                self.loaded == old(self).loaded,
                self.hydrated == old(self).hydrated,
                texts(self.artists@).contains(artist_id@),
                find == (|album: Album| Find { artist: artist_id@, album }),
                earlier == old(self).finds@,
                self.finds@ == earlier + all.take(i as int).map_values(find),
                found(self.releases@) == collected(self.finds@),
                forall|k: int|
                    0 <= k < self.finds@.len() ==> texts(self.artists@).contains(
                        (#[trigger] self.finds@[k]).artist,
                    ),
            decreases n - i,
        {
            let album = rest.remove(0);
            let ghost before = self.releases@.len();
            proof {
                assert(all.skip(i as int).remove(0) =~= all.skip(i + 1));
                assert(all.take(i + 1).drop_last() =~= all.take(i as int));
                assert(all.take(i + 1).last() == album);
            }
            add_matched_release(&mut self.releases, artist_id, album);
            assert(found(self.releases@).len() >= before);
            proof {
                let more = self.finds@.push(Find { artist: artist_id@, album });
                assert(more.drop_last() =~= self.finds@);
                assert(all.take(i + 1) =~= all.take(i as int).push(album));
                assert(more =~= earlier + all.take(i + 1).map_values(find));
                self.finds@ = more;
            }
            i += 1;
        }
        assert(all.take(i as int) =~= all);
        self.scanned = self.scanned + 1;
        self.scanning()
    }

    /// The ids of the releases from one position up to another.
    pub open spec fn batch_ids(&self, from: int, upto: int) -> Seq<Seq<char>> {
        Seq::new((upto - from) as nat, |i: int| self.releases@[from + i].album.id@)
    }

    /// The ids of the releases to load next; `None` when all were asked for.
    pub fn next_batch(&mut self) -> (ids: Option<Vec<String>>)
        requires
            old(self).wf(),
        ensures
            final(self).wf(),
            ids is None == (old(self).requested == old(self).releases@.len()),
            ids matches Some(list) ==> {
                &&& 0 < list@.len() <= RELEASE_ALBUM_BATCH
                &&& list@.len() < RELEASE_ALBUM_BATCH ==> old(self).requested + list@.len()
                    == old(self).releases@.len()
                &&& final(self).requested == old(self).requested + list@.len()
                &&& texts(list@) == old(self).batch_ids(
                    old(self).requested as int,
                    final(self).requested as int,
                )
            },
            ids is None ==> final(self).requested == old(self).requested,
            final(self).releases == old(self).releases,
            final(self).artists == old(self).artists,
            final(self).started == old(self).started,
            final(self).scanned == old(self).scanned,
            final(self).loaded == old(self).loaded,
            final(self).hydrated == old(self).hydrated,
            final(self).finds == old(self).finds,
    {
        if self.requested == self.releases.len() {
            return None;
        }
        let from: usize = self.requested;
        let mut ids: Vec<String> = Vec::new();
        while self.requested < self.releases.len() && ids.len() < RELEASE_ALBUM_BATCH
            invariant
                from == old(self).requested,
                from <= self.requested <= self.releases@.len(),
                ids@.len() == self.requested - from,
                ids@.len() <= RELEASE_ALBUM_BATCH,
                forall|k: int|
                    0 <= k < ids@.len() ==> #[trigger] ids@[k]@ == self.releases@[from
                        + k].album.id@,
                self.releases == old(self).releases,
                self.artists == old(self).artists,
                self.started == old(self).started,
                self.scanned == old(self).scanned,
                self.loaded == old(self).loaded,
                self.hydrated == old(self).hydrated,
                self.finds == old(self).finds,
            decreases self.releases@.len() - self.requested,
        {
            ids.push(self.releases[self.requested].album.id.clone());
            self.requested = self.requested + 1;
        }
        assert(texts(ids@) =~= old(self).batch_ids(from as int, self.requested as int));
        Some(ids)
    }

    /// An album that came with a batch, under the group that it was found
    /// under; `None` for one that was not asked for.
    pub fn accept_album(&self, album: Album) -> (r: Option<Album>)
        requires
            self.wf(),
        ensures
            r is Some == has_release(found(self.releases@), album.id@),
            forall|i: int|
                0 <= i < self.releases@.len() && (#[trigger] self.releases@[i]).album.id@
                    == album.id@ ==> r == Some(
                    (Album { album_group: self.releases@[i].album.album_group, ..album }),
                ),
    {
        match find_release(&self.releases, album.id.as_str()) {
            None => {
                proof {
                    assert forall|i: int| 0 <= i < self.releases@.len() implies (
                    #[trigger] self.releases@[i]).album.id@ != album.id@ by {
                        if self.releases@[i].album.id@ == album.id@ {
                            assert(found(self.releases@)[i].album.id@ == album.id@);
                        }
                    }
                }
                None
            },
            Some(at) => {
                let mut album = album;
                album.album_group = clone_text(&self.releases[at].album.album_group);
                proof {
                    assert forall|i: int|
                        0 <= i < self.releases@.len() && (
                        #[trigger] self.releases@[i]).album.id@ == album.id@ implies i == at by {
                        assert(found(self.releases@)[i].album.id@ == found(
                            self.releases@,
                        )[at as int].album.id@);
                    }
                }
                Some(album)
            },
        }
    }

    /// Takes an accepted album with all its tracks. What no selected artist is
    /// on is dropped, and with it an album that nothing is left of.
    pub fn album_loaded(&mut self, album: Album) -> (progress: ReleaseScanProgress)
        requires
            old(self).wf(),
            has_release(found(old(self).releases@), album.id@),
            forall|i: int|
                0 <= i < old(self).releases@.len() && (#[trigger] old(self).releases@[i]).album.id@
                    == album.id@ ==> album.album_group
                    == old(self).releases@[i].album.album_group,
            old(self).requested > 0,
            old(self).loaded < usize::MAX,
        ensures
            final(self).wf(),
            final(self).releases == old(self).releases,
            final(self).artists == old(self).artists,
            final(self).started == old(self).started,
            final(self).scanned == old(self).scanned,
            final(self).requested == old(self).requested,
            final(self).loaded == old(self).loaded + 1,
            final(self).finds == old(self).finds,
            progress == final(self).loading_spec(),
            forall|i: int|
                0 <= i < old(self).releases@.len() && (#[trigger] old(self).releases@[i]).album.id@
                    == album.id@ ==> {
                    let artists = old(self).releases@[i].artist_ids.list();
                    if album.tracks is Some && selected_tracks(
                        album.tracks->0.items@,
                        artists,
                    ).len() > 0 {
                        let kept = final(self).hydrated@.last();
                        &&& final(self).hydrated@ == old(self).hydrated@.push(kept)
                        &&& kept == (Album { tracks: kept.tracks, ..album })
                        &&& kept.tracks is Some
                        &&& kept.tracks->0.items@ == selected_tracks(
                            album.tracks->0.items@,
                            artists,
                        )
                        &&& kept.tracks->0.total == kept.tracks->0.items.len() as u32
                        &&& kept.tracks->0.limit == kept.tracks->0.total
                        &&& kept.tracks->0.offset == 0
                        &&& kept.tracks->0.next is None
                    } else {
                        final(self).hydrated == old(self).hydrated
                    }
                },
    {
        let mut album = album;
        let ghost id = album.id@;
        let ghost loaded = album;
        match find_release(&self.releases, album.id.as_str()) {
            None => {},
            Some(at) => {
                proof {
                    assert forall|i: int|
                        0 <= i < self.releases@.len() && (
                        #[trigger] self.releases@[i]).album.id@ == id implies i == at by {
                        assert(found(self.releases@)[i].album.id@ == found(
                            self.releases@,
                        )[at as int].album.id@);
                    }
                }
                retain_matching_release_tracks(&mut album, &self.releases[at].artist_ids);
                let left = match &album.tracks {
                    Some(tracks) => tracks.items.len() > 0,
                    None => false,
                };
                if left {
                    proof {
                        let release = found(self.releases@)[at as int];
                        assert forall|t: int|
                            0 <= t < album.tracks->0.items@.len() implies by_selected(
                            #[trigger] album.tracks->0.items@[t],
                            release.artists,
                        ) by {
                            let items = album.tracks->0.items@;
                            assert(items.contains(items[t]));
                            kept_tracks_are_by_selected_artists(
                                loaded.tracks->0.items@,
                                release.artists,
                                items[t],
                            );
                        }
                        assert(release.album.id@ == album.id@);
                        assert(loaded_well(found(self.releases@), album));
                    }
                    self.hydrated.push(album);
                }
            },
        }
        self.loaded = self.loaded + 1;
        self.loading()
    }

    /// Counts the releases of a batch that Spotify did not answer with.
    pub fn batch_ended(&mut self, asked: usize, answered: usize)
        requires
            old(self).wf(),
            old(self).loaded + (if asked > answered {
                asked - answered
            } else {
                0
            }) <= usize::MAX,
        ensures
            final(self).wf(),
            final(self).loaded == old(self).loaded + (if asked > answered {
                asked - answered
            } else {
                0
            }),
            final(self).releases == old(self).releases,
            final(self).artists == old(self).artists,
            final(self).started == old(self).started,
            final(self).scanned == old(self).scanned,
            final(self).requested == old(self).requested,
            final(self).hydrated == old(self).hydrated,
            final(self).finds == old(self).finds,
    {
        self.loaded = self.loaded + asked.saturating_sub(answered);
    }

    /// The releases, in the order in which they are shown.
    pub fn finish(self) -> (albums: Vec<Album>)
        ensures
            albums@ == ordered(self.hydrated@),
    {
        sort_releases(self.hydrated)
    }
}

/// Every album that a scan shows was listed by artists of the scan. It has a
/// track at least, each of its tracks is by an artist who listed the album, and
/// its group is the best under which it was listed.
pub proof fn a_scan_shows_what_its_artists_released(
    scan: ReleaseScan,
    i: int,
    track: int,
    find: int,
)
    requires
        scan.wf(),
        0 <= i < ordered(scan.hydrated@).len(),
    ensures
        ({
            let album = ordered(scan.hydrated@)[i];
            let finds = scan.finds@;
            &&& exists|artist: Seq<char>|
                texts(scan.artists@).contains(artist) && #[trigger] listed(
                    finds,
                    artist,
                    album.id@,
                )
            &&& album.tracks is Some && album.tracks->0.items@.len() > 0
            &&& 0 <= track < album.tracks->0.items@.len() ==> by_lister(
                album.tracks->0.items@[track],
                finds,
                album.id@,
            )
            &&& 0 <= find < finds.len() && finds[find].album.id@ == album.id@ ==> group_rank(
                text_of(album.album_group),
            ) <= group_rank(text_of(finds[find].album.album_group))
            &&& exists|k: int|
                0 <= k < finds.len() && (#[trigger] finds[k]).album.id@ == album.id@
                    && finds[k].album.album_group == album.album_group
        }),
{
    broadcast use vstd::seq_lib::group_to_multiset_ensures;
    let album = ordered(scan.hydrated@)[i];
    let finds = scan.finds@;
    let releases = found(scan.releases@);
    sorting_orders_and_keeps_all(scan.hydrated@);
    assert(ordered(scan.hydrated@).contains(album));
    assert(scan.hydrated@.to_multiset().count(album) > 0);
    assert(scan.hydrated@.contains(album));
    let at = scan.hydrated@.index_of(album);
    assert(loaded_well(releases, scan.hydrated@[at]));
    let k = choose|k: int|
        0 <= k < releases.len() && (#[trigger] releases[k]).album.id@ == album.id@
            && album.album_group == releases[k].album.album_group && album.tracks is Some
            && album.tracks->0.items@.len() > 0 && forall|t: int|
            0 <= t < album.tracks->0.items@.len() ==> by_selected(
                #[trigger] album.tracks->0.items@[t],
                releases[k].artists,
            );
    let lister = releases[k].artists[0];
    releases_were_listed(finds, k, lister, find);
    assert(releases[k].artists.contains(lister));
    let by = choose|n: int|
        0 <= n < finds.len() && (#[trigger] finds[n]).artist == lister && finds[n].album.id@
            == album.id@;
    assert(texts(scan.artists@).contains(finds[by].artist));
    if 0 <= track < album.tracks->0.items@.len() {
        let shown = album.tracks->0.items@[track];
        let c = choose|c: int|
            0 <= c < shown.artists@.len() && (#[trigger] shown.artists@[c]).id is Some
                && releases[k].artists.contains(shown.artists@[c].id->0@);
        releases_were_listed(finds, k, shown.artists@[c].id->0@, find);
    }
}

/// A scan that was fed with what walks over artists' albums found shows only
/// albums that were released in the period, as they were found. Walks find only
/// such albums, and feeding them to a scan keeps it so.
pub proof fn a_scan_shows_recent_albums(
    scan: ReleaseScan,
    i: int,
    cutoff: Seq<char>,
    tomorrow: Seq<char>,
)
    requires
        scan.wf(),
        found_recent(scan.finds@, cutoff, tomorrow),
        0 <= i < ordered(scan.hydrated@).len(),
    ensures
        exists|k: int|
            0 <= k < scan.finds@.len() && (#[trigger] scan.finds@[k]).album.id@ == ordered(
                scan.hydrated@,
            )[i].id@ && recent(
                text_of(scan.finds@[k].album.release_date),
                cutoff,
                tomorrow,
            ),
        found_recent(Seq::empty(), cutoff, tomorrow),
        all_recent(Seq::empty(), cutoff, tomorrow),
{
    a_scan_shows_what_its_artists_released(scan, i, 0, 0);
}

/// Whether one of the artists who listed an album is credited on a track.
pub open spec fn by_lister(track: Track, finds: Seq<Find>, id: Seq<char>) -> bool {
    exists|c: int|
        0 <= c < track.artists@.len() && (#[trigger] track.artists@[c]).id is Some && listed(
            finds,
            track.artists@[c].id->0@,
            id,
        )
}

} // verus!
