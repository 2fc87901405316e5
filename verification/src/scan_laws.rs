//! Whose releases a scan looks for, and which of them it keeps.

use vstd::prelude::*;

use crate::client::{played, plays, DuplicateWalk};
use crate::models::{
    text_of, Album, Artist, ArtistRef, CursorPage, Page, PlayableItem, PlaylistItem, SavedAlbum,
    SavedTrack, Track,
};
use crate::release_library::{
    first_asks, liked_asks, library_request, saved_asks, starts_behind, LibraryAsk, Pages,
};
use crate::release_scan::{
    artist_ids, collected, group_rank, has_release, last_followed_page, matched, page_size,
    page_starts, preferred_group, recent_albums, selected_tracks, Find, ReleaseModel,
};
use crate::releases::{
    album_credits, credited, days_before, liked_threshold, recent, tally, track_credits,
    SECONDS_PER_DAY,
};
use crate::request::{BodyModel, RequestModel};
use crate::sets::with_all_is_a_union;
use crate::text::{decimal, text_below};
use crate::transport::Method;

verus! {

// ---- the period ---------------------------------------------------------------------

/// A release is recent from the first day of the period to the day after today, and one
/// without a date never is. The period is as many whole days long as was chosen.
pub proof fn a_release_is_recent_within_the_period(
    date: Seq<char>,
    cutoff: Seq<char>,
    tomorrow: Seq<char>,
    days: u16,
    now: i64,
)
    ensures
        recent(Some(date), cutoff, tomorrow) == (!text_below(date, cutoff) && !text_below(
            tomorrow,
            date,
        )),
        !recent(None, cutoff, tomorrow),
        days_before(days, now) == now - days * 24 * 60 * 60,
        SECONDS_PER_DAY == 24 * 60 * 60,
{
    assert(days * 24 * 60 * 60 == days * 86_400) by (nonlinear_arith);
}

/// Of the albums of an artist exactly the recent ones are kept.
pub proof fn every_recent_album_is_kept(
    albums: Seq<Album>,
    cutoff: Seq<char>,
    tomorrow: Seq<char>,
    i: int,
    album: Album,
)
    ensures
        0 <= i < albums.len() && (albums[i].release_date matches Some(date) && !text_below(
            date@,
            cutoff,
        ) && !text_below(tomorrow, date@)) ==> recent_albums(albums, cutoff, tomorrow).contains(
            albums[i],
        ),
        recent_albums(albums, cutoff, tomorrow).contains(album) ==> albums.contains(album) && (
        album.release_date matches Some(date) && !text_below(date@, cutoff) && !text_below(
            tomorrow,
            date@,
        )),
{
    broadcast use vstd::seq_lib::group_filter_ensures;
    let keep = |album: Album| recent(text_of(album.release_date), cutoff, tomorrow);
    let kept = albums.filter(keep);
    if 0 <= i < albums.len() && keep(albums[i]) {
        assert(kept.contains(albums[i]));
    }
    if kept.contains(album) {
        let k = kept.index_of(album);
        assert(keep(kept[k]));
        a_kept_album_was_there(albums, keep, album);
    }
}

proof fn a_kept_album_was_there(albums: Seq<Album>, keep: spec_fn(Album) -> bool, album: Album)
    requires
        albums.filter(keep).contains(album),
    ensures
        albums.contains(album),
    decreases albums.len(),
{
    reveal(Seq::filter);
    if albums.len() > 0 {
        let shorter = albums.drop_last();
        let k = albums.filter(keep).index_of(album);
        assert(albums.filter(keep)[k] == album);
        if k < shorter.filter(keep).len() {
            assert(shorter.filter(keep)[k] == album);
            a_kept_album_was_there(shorter, keep, album);
            let m = shorter.index_of(album);
            assert(albums[m] == album);
        } else {
            assert(albums[albums.len() - 1] == album);
        }
    }
}

// ---- the artists --------------------------------------------------------------------

/// Whether an artist is among credits.
pub open spec fn is_credited(artists: Seq<ArtistRef>, id: Seq<char>) -> bool {
    exists|i: int|
        0 <= i < artists.len() && ((#[trigger] artists[i]).id matches Some(own) && own@ == id)
}

/// The artists of credits are all that have an id, and no others.
pub proof fn credits_name_their_artists(artists: Seq<ArtistRef>, id: Seq<char>)
    ensures
        credited(artists).contains(id) == (id.len() > 0 && is_credited(artists, id)),
    decreases artists.len(),
{
    if artists.len() > 0 {
        let shorter = artists.drop_last();
        let (before, all) = (credited(shorter), credited(artists));
        credits_name_their_artists(shorter, id);
        let last = artists.len() - 1;
        if before.contains(id) {
            let k = before.index_of(id);
            assert(all[k] == id);
        }
        if is_credited(shorter, id) {
            let i = choose|i: int|
                0 <= i < shorter.len() && ((#[trigger] shorter[i]).id matches Some(own) && own@
                    == id);
            assert(artists[i] == shorter[i]);
        }
        if id.len() > 0 && is_credited(artists, id) && !is_credited(shorter, id) {
            let i = choose|i: int|
                0 <= i < artists.len() && ((#[trigger] artists[i]).id matches Some(own) && own@
                    == id);
            if i < last {
                assert(shorter[i] == artists[i]);
            }
            assert(all[before.len() as int] == id);
        }
        if all.contains(id) && !before.contains(id) {
            let k = all.index_of(id);
            if k < before.len() {
                assert(before[k] == id);
            }
            assert(artists[last].id is Some && artists[last].id->0@ == id);
        }
    }
}

/// The artists of saved albums, and of liked songs, are those who are credited on one.
pub proof fn the_library_names_its_artists(
    albums: Seq<SavedAlbum>,
    songs: Seq<SavedTrack>,
    id: Seq<char>,
    i: int,
)
    requires
        id.len() > 0,
    ensures
        0 <= i < albums.len() && is_credited(albums[i].album.artists@, id) ==> album_credits(
            albums,
        ).contains(id),
        album_credits(albums).contains(id) ==> exists|k: int|
            0 <= k < albums.len() && is_credited((#[trigger] albums[k]).album.artists@, id),
        0 <= i < songs.len() && is_credited(songs[i].track.artists@, id) ==> track_credits(
            songs,
        ).contains(id) && tally(track_credits(songs), id) > 0,
        track_credits(songs).contains(id) ==> exists|k: int|
            0 <= k < songs.len() && is_credited((#[trigger] songs[k]).track.artists@, id),
    decreases albums.len() + songs.len(),
{
    if albums.len() > 0 {
        let shorter = albums.drop_last();
        let last = albums.len() - 1;
        let more = credited(albums[last].album.artists@);
        let (before, all) = (album_credits(shorter), album_credits(albums));
        the_library_names_its_artists(shorter, Seq::empty(), id, i);
        credits_name_their_artists(albums[last].album.artists@, id);
        if 0 <= i < last && before.contains(id) {
            assert(shorter[i] == albums[i]);
            let k = before.index_of(id);
            assert(all[k] == id);
        }
        if i == last && more.contains(id) {
            let k = more.index_of(id);
            assert(all[before.len() + k] == id);
        }
        if all.contains(id) {
            let k = all.index_of(id);
            if k < before.len() {
                assert(before[k] == id);
                let m = choose|m: int|
                    0 <= m < shorter.len() && is_credited(
                        (#[trigger] shorter[m]).album.artists@,
                        id,
                    );
                assert(albums[m] == shorter[m]);
            } else {
                assert(more[k - before.len()] == id);
            }
        }
    }
    if songs.len() > 0 {
        let shorter = songs.drop_last();
        let last = songs.len() - 1;
        let more = credited(songs[last].track.artists@);
        let (before, all) = (track_credits(shorter), track_credits(songs));
        the_library_names_its_artists(Seq::empty(), shorter, id, i);
        credits_name_their_artists(songs[last].track.artists@, id);
        if 0 <= i < last && before.contains(id) {
            assert(shorter[i] == songs[i]);
            let k = before.index_of(id);
            assert(all[k] == id);
        }
        if i == last && more.contains(id) {
            let k = more.index_of(id);
            assert(all[before.len() + k] == id);
        }
        if all.contains(id) {
            a_name_that_stands_counts(all, id);
            let k = all.index_of(id);
            if k < before.len() {
                assert(before[k] == id);
                let m = choose|m: int|
                    0 <= m < shorter.len() && is_credited(
                        (#[trigger] shorter[m]).track.artists@,
                        id,
                    );
                assert(songs[m] == shorter[m]);
            } else {
                assert(more[k - before.len()] == id);
            }
        }
    }
}

proof fn a_name_that_stands_counts(ids: Seq<Seq<char>>, id: Seq<char>)
    requires
        ids.contains(id),
    ensures
        tally(ids, id) > 0,
    decreases ids.len(),
{
    if ids.last() != id {
        let k = ids.index_of(id);
        assert(ids.drop_last()[k] == id);
        a_name_that_stands_counts(ids.drop_last(), id);
    }
}

/// A name counts as often as it stands in a list; an artist needs as many liked songs as
/// was asked for, and one at least.
pub proof fn artists_are_counted(ids: Seq<Seq<char>>, id: Seq<char>, other: Seq<char>, minimum: u16)
    ensures
        tally(Seq::empty(), id) == 0,
        tally(ids.push(id), id) == tally(ids, id) + 1,
        other != id ==> tally(ids.push(other), id) == tally(ids, id),
        minimum > 0 ==> liked_threshold(minimum) == minimum,
        liked_threshold(0) == 1,
{
    assert(ids.push(id).drop_last() =~= ids);
    assert(ids.push(other).drop_last() =~= ids);
}

/// Every followed artist with an id is collected, and no other. The walk goes on while a
/// page has artists and names a place that was not asked for yet.
pub proof fn followed_artists_are_collected(
    artists: Seq<Artist>,
    id: Seq<char>,
    after: Option<String>,
    page: CursorPage<Artist>,
)
    ensures
        artist_ids(artists).contains(id) == (id.len() > 0 && exists|i: int|
            0 <= i < artists.len() && (#[trigger] artists[i]).id@ == id),
        page.items@.len() > 0 && (page.cursors matches Some(cursors) && (cursors.after
            matches Some(next) && (after matches Some(asked) ==> asked@ != next@)))
            ==> !last_followed_page(after, page),
        page.items@.len() == 0 ==> last_followed_page(after, page),
        page.cursors is None ==> last_followed_page(after, page),
    decreases artists.len(),
{
    if artists.len() > 0 {
        let shorter = artists.drop_last();
        let (before, all) = (artist_ids(shorter), artist_ids(artists));
        let last = artists.len() - 1;
        followed_artists_are_collected(shorter, id, after, page);
        if before.contains(id) {
            let k = before.index_of(id);
            assert(all[k] == id);
            let i = choose|i: int| 0 <= i < shorter.len() && (#[trigger] shorter[i]).id@ == id;
            assert(artists[i] == shorter[i]);
        }
        if id.len() > 0 && exists|i: int|
            0 <= i < artists.len() && (#[trigger] artists[i]).id@ == id {
            let i = choose|i: int| 0 <= i < artists.len() && (#[trigger] artists[i]).id@ == id;
            if i < last {
                assert(shorter[i] == artists[i]);
            } else {
                assert(all[before.len() as int] == id);
            }
        }
        if all.contains(id) && !before.contains(id) {
            let k = all.index_of(id);
            if k < before.len() {
                assert(before[k] == id);
            }
            assert(artists[last].id@ == id);
        }
    }
}

/// The first page of each chosen part is asked for, and then all that stand behind it.
pub proof fn the_library_is_asked_for_in_pages(
    albums: Page<SavedAlbum>,
    songs: Page<SavedTrack>,
    left: usize,
    k: int,
)
    ensures
        first_asks(true, true, true) == seq![
            LibraryAsk::Followed { after: None },
            LibraryAsk::SavedAlbums { offset: 0, limit: 50 },
            LibraryAsk::LikedSongs { offset: 0, limit: 50 },
        ],
        first_asks(true, false, false) == seq![LibraryAsk::Followed { after: None }],
        first_asks(false, true, false) == seq![LibraryAsk::SavedAlbums { offset: 0, limit: 50 }],
        first_asks(false, false, true) == seq![LibraryAsk::LikedSongs { offset: 0, limit: 50 }],
        saved_asks(Pages::First, albums).len() == starts_behind(albums).len(),
        liked_asks(Pages::First, songs).len() == starts_behind(songs).len(),
        0 <= k < starts_behind(albums).len() ==> saved_asks(Pages::First, albums)[k] == (
        LibraryAsk::SavedAlbums { offset: starts_behind(albums)[k], limit: page_size(albums) }),
        0 <= k < starts_behind(songs).len() ==> liked_asks(Pages::First, songs)[k] == (
        LibraryAsk::LikedSongs { offset: starts_behind(songs)[k], limit: page_size(songs) }),
        saved_asks(Pages::Left(left), albums).len() == 0,
        liked_asks(Pages::Left(left), songs).len() == 0,
        albums.next is None ==> starts_behind(albums).len() == 0,
        albums.next is Some && albums.offset + albums.limit < albums.total ==> (starts_behind(
            albums,
        ).len() > 0 && starts_behind(albums)[0] == albums.offset + albums.limit),
{
    assert(first_asks(true, true, true) =~= seq![
        LibraryAsk::Followed { after: None },
        LibraryAsk::SavedAlbums { offset: 0, limit: 50 },
        LibraryAsk::LikedSongs { offset: 0, limit: 50 },
    ]);
    assert(first_asks(true, false, false) =~= seq![LibraryAsk::Followed { after: None }]);
    assert(first_asks(false, true, false) =~= seq![
        LibraryAsk::SavedAlbums { offset: 0, limit: 50 },
    ]);
    assert(first_asks(false, false, true) =~= seq![
        LibraryAsk::LikedSongs { offset: 0, limit: 50 },
    ]);
    if albums.next is Some && albums.offset + albums.limit < albums.total {
        let (start, total, size) = (
            (albums.offset + albums.limit) as u32,
            albums.total,
            page_size(albums),
        );
        assert((total - start + size - 1) / size as int >= 1) by (nonlinear_arith)
            requires
                start < total,
                size > 0,
        ;
        assert(page_starts(start, total, size)[0] == start);
    }
}

/// The pages of the library are read where they are kept.
pub proof fn a_page_of_the_library_is_read(offset: u32, limit: u32, after: Option<String>)
    ensures
        library_request(LibraryAsk::SavedAlbums { offset, limit }) == (RequestModel {
            method: Method::Get,
            path: "/me/albums"@,
            query: seq![
                ("limit"@, decimal(limit as nat)),
                ("offset"@, decimal(offset as nat)),
            ],
            body: BodyModel::Empty,
        }),
        library_request(LibraryAsk::LikedSongs { offset, limit }) == (RequestModel {
            method: Method::Get,
            path: "/me/tracks"@,
            query: seq![
                ("limit"@, decimal(limit as nat)),
                ("offset"@, decimal(offset as nat)),
            ],
            body: BodyModel::Empty,
        }),
        library_request(LibraryAsk::Followed { after }) == (RequestModel {
            method: Method::Get,
            path: "/me/following"@,
            query: seq![("type"@, "artist"@), ("limit"@, decimal(50))] + (match after {
                Some(place) => seq![("after"@, place@)],
                None => Seq::<(Seq<char>, Seq<char>)>::empty(),
            }),
            body: BodyModel::Empty,
        }),
{
    assert(library_request(LibraryAsk::SavedAlbums { offset, limit }).query =~= seq![
        ("limit"@, decimal(limit as nat)),
        ("offset"@, decimal(offset as nat)),
    ]);
    assert(library_request(LibraryAsk::LikedSongs { offset, limit }).query =~= seq![
        ("limit"@, decimal(limit as nat)),
        ("offset"@, decimal(offset as nat)),
    ]);
    assert(library_request(LibraryAsk::Followed { after }).query =~= seq![
        ("type"@, "artist"@),
        ("limit"@, decimal(50)),
    ] + (match after {
        Some(place) => seq![("after"@, place@)],
        None => Seq::<(Seq<char>, Seq<char>)>::empty(),
    }));
}

/// A page begins where the last one ended, when there is one behind it, and is as large
/// as the first one says or is.
pub proof fn a_page_follows_the_last<T>(page: Page<T>)
    requires
        page.items@.len() <= u32::MAX,
    ensures
        page.next is None ==> page.next_offset_spec() is None,
        page.next is Some && page.offset + page.limit <= u32::MAX ==> page.next_offset_spec()
            == Some((page.offset + page.limit) as u32),
        page_size(page) >= page.limit,
        page_size(page) >= page.items@.len(),
        page_size(page) > 0,
        page_size(page) == page.limit || page_size(page) == page.items@.len() || page_size(page)
            == 1,
{
}

// ---- the releases -------------------------------------------------------------------

/// Every album that an artist listed is among the releases found, with that artist.
pub proof fn what_was_listed_is_found(finds: Seq<Find>, i: int) -> (k: int)
    requires
        0 <= i < finds.len(),
    ensures
        0 <= k < collected(finds).len(),
        collected(finds)[k].album.id@ == finds[i].album.id@,
        collected(finds)[k].artists.contains(finds[i].artist),
    decreases finds.len(),
{
    let earlier = finds.drop_last();
    let (before, after) = (collected(earlier), collected(finds));
    let last = finds.last();
    if i < finds.len() - 1 {
        let k = what_was_listed_is_found(earlier, i);
        assert(earlier[i] == finds[i]);
        if has_release(before, last.album.id@) && before[k].album.id@ == last.album.id@ {
            with_all_is_a_union(before[k].artists, seq![last.artist]);
            assert(before[k].artists.to_set().contains(finds[i].artist));
            assert(after[k].artists.to_set().contains(finds[i].artist));
        }
        k
    } else if has_release(before, last.album.id@) {
        let k = choose|k: int|
            0 <= k < before.len() && (#[trigger] before[k]).album.id@ == last.album.id@;
        with_all_is_a_union(before[k].artists, seq![last.artist]);
        assert(seq![last.artist][0] == last.artist);
        assert(seq![last.artist].to_set().contains(last.artist));
        assert(after[k].artists.to_set().contains(last.artist));
        k
    } else {
        assert(after[before.len() as int].artists[0] == last.artist);
        before.len() as int
    }
}

/// A release that is found for the first time is kept as it is, behind the others; found
/// again, it keeps its place, and nothing else changes.
pub proof fn a_release_is_kept_once(
    releases: Seq<ReleaseModel>,
    artist: Seq<char>,
    album: Album,
    i: int,
)
    requires
        0 <= i < releases.len(),
    ensures
        ({
            let after = matched(releases, artist, album);
            &&& !has_release(releases, album.id@) ==> after == releases.push(
                ReleaseModel { album, artists: seq![artist] },
            )
            &&& has_release(releases, album.id@) ==> after.len() == releases.len()
            &&& releases[i].album.id@ != album.id@ ==> after[i] == releases[i]
            &&& after[i].album.id == releases[i].album.id && after[i].album.name
                == releases[i].album.name && after[i].album.release_date
                == releases[i].album.release_date
        }),
{
}

/// An artist's own albums come first, then singles, compilations and appearances, and
/// what Spotify does not say last.
pub proof fn the_groups_have_their_order(held: Option<String>, candidate: Option<String>)
    ensures
        group_rank(Some("album"@)) < group_rank(Some("single"@)),
        group_rank(Some("single"@)) < group_rank(Some("compilation"@)),
        group_rank(Some("compilation"@)) < group_rank(Some("appears_on"@)),
        group_rank(Some("appears_on"@)) < group_rank(None),
        text_of(held) == Some("album"@) ==> preferred_group(held, candidate) == held,
        text_of(candidate) == Some("album"@) && text_of(held) != Some("album"@) ==> preferred_group(
            held,
            candidate,
        ) == candidate,
        text_of(held) == Some("appears_on"@) && text_of(candidate) == Some("single"@)
            ==> preferred_group(held, candidate) == candidate,
        candidate is None ==> preferred_group(held, candidate) == held,
{
    reveal_strlit("album");
    reveal_strlit("single");
    reveal_strlit("compilation");
    reveal_strlit("appears_on");
    assert("album"@.len() == 5 && "single"@.len() == 6);
    assert("compilation"@.len() == 11 && "appears_on"@.len() == 10);
}

/// A song is kept when one of the artists who listed its album is credited on it, and
/// dropped otherwise.
pub proof fn songs_of_the_listed_artists_are_kept(
    tracks: Seq<Track>,
    artists: Seq<Seq<char>>,
    i: int,
    credit: int,
    track: Track,
)
    ensures
        0 <= i < tracks.len() && 0 <= credit < tracks[i].artists@.len() && (
        tracks[i].artists@[credit].id matches Some(id) && artists.contains(id@))
            ==> selected_tracks(tracks, artists).contains(tracks[i]),
        selected_tracks(tracks, artists).contains(track) ==> tracks.contains(track) && exists|
            c: int,
        |
            0 <= c < track.artists@.len() && ((#[trigger] track.artists@[c]).id matches Some(id)
                && artists.contains(id@)),
{
    crate::release_scan::kept_tracks_are_by_selected_artists(tracks, artists, track);
    if 0 <= i < tracks.len() {
        crate::release_scan::kept_tracks_are_by_selected_artists(tracks, artists, tracks[i]);
        assert(tracks.contains(tracks[i]));
    }
}

/// A row of a playlist plays what stands under either of its names, the newer one first.
pub proof fn a_row_plays_what_it_names(row: PlaylistItem, item: PlayableItem)
    ensures
        row.item == Some(item) ==> row.playable_spec() == Some(item),
        row.item is None ==> row.playable_spec() == row.track,
        item matches PlayableItem::Track(track) ==> item.uri_spec() == track.uri@,
        item matches PlayableItem::Episode(episode) ==> item.uri_spec() == episode.uri@,
        row.playable_spec() == Some(item) ==> row.uri_spec() == Some(item.uri_spec()),
{
}

/// A song that a row of any page plays is found there, under either of the row's names.
pub proof fn a_song_on_a_page_is_found(
    pages: Seq<Page<PlaylistItem>>,
    p: int,
    i: int,
    track: Track,
    uri: Seq<char>,
)
    requires
        0 <= p < pages.len(),
        0 <= i < pages[p].items@.len(),
    ensures
        pages[p].items@[i].item == Some(PlayableItem::Track(track)) ==> played(pages, track.uri@),
        pages[p].items@[i].item is None && pages[p].items@[i].track == Some(
            PlayableItem::Track(track),
        ) ==> played(pages, track.uri@),
        played(pages, uri) ==> exists|q: int, k: int|
            0 <= q < pages.len() && 0 <= k < pages[q].items@.len() && (
            #[trigger] pages[q].items@[k]).uri_spec() == Some(uri),
{
    let row = pages[p].items@[i];
    if row.item == Some(PlayableItem::Track(track)) || (row.item is None && row.track == Some(
        PlayableItem::Track(track),
    )) {
        assert(pages[p].items@[i].uri_spec() == Some(track.uri@));
        assert(plays(pages[p].items@, track.uri@));
    }
    if played(pages, uri) {
        let q = choose|q: int| 0 <= q < pages.len() && plays(#[trigger] pages[q].items@, uri);
        let rows = pages[q].items@;
        let k = choose|k: int| 0 <= k < rows.len() && (#[trigger] rows[k]).uri_spec() == Some(uri);
        assert(pages[q].items@[k].uri_spec() == Some(uri));
    }
}

/// The songs that are told to be there already are those that a page has shown, in the order
/// in which they were to be added.
pub proof fn duplicates_are_told_in_order(walk: DuplicateWalk, r: Vec<String>, i: int)
    requires
        call_ensures(DuplicateWalk::duplicates, (&walk,), r),
        0 <= i < walk.uris@.len(),
    ensures
        played(walk.pages@, walk.uris@[i]@) ==> r@.contains(walk.uris@[i]),
        r@.contains(walk.uris@[i]) ==> played(walk.pages@, walk.uris@[i]@),
{
    broadcast use vstd::seq_lib::group_filter_ensures;
    let keep = |uri: String| played(walk.pages@, uri@);
    assert(r@ == walk.uris@.filter(keep));
    if keep(walk.uris@[i]) {
        assert(walk.uris@.filter(keep).contains(walk.uris@[i]));
    }
    if r@.contains(walk.uris@[i]) {
        let k = r@.index_of(walk.uris@[i]);
        assert(keep(r@[k]));
    }
}

} // verus!
