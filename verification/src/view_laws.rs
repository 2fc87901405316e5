//! What the page of new releases shows, whatever was found and chosen.

use vstd::prelude::*;

use crate::models::{Album, PlayableItem, Track};
use crate::release_order::{artists_key, lower_names};
use crate::release_view::{
    facts_of, identities, identity, in_groups, liked_filter, matching, matching_rows, named_remix,
    page_content, passes, period_line, periods, plain_title, progress_prefix, progress_sentence,
    release_rows, row_album, row_albums, row_matches, row_texts, scan_progress, show, shown_by,
    shown_tracks, tracks_of, visible_release_count, FactsModel, FilterAction, Loading, PageContent,
    Period, ProgressView, ReleaseGroup, ReleaseRow,
};
use crate::releases::{ReleaseArtistSource, ReleaseScanPhase, ReleaseScanProgress};
use crate::sets::{with_all, with_all_is_a_union};
use crate::text::{decimal, has_part, lowercase};

verus! {

/// What Spotify calls a group of releases.
pub open spec fn called(group: ReleaseGroup) -> Seq<char> {
    match group {
        ReleaseGroup::Album => "album"@,
        ReleaseGroup::Single => "single"@,
        ReleaseGroup::Compilation => "compilation"@,
        ReleaseGroup::AppearsOn => "appears_on"@,
    }
}

/// Whether a release is of a group: by how it stands to the artist where that is
/// known, else by what it is.
pub open spec fn of_group(album: Album, group: ReleaseGroup) -> bool {
    match (album.album_group, album.album_type) {
        (Some(name), _) => name@ == called(group),
        (None, Some(name)) => name@ == called(group),
        (None, None) => false,
    }
}

/// Whether a release is one that was asked for: of a chosen group, and no remix where
/// those are hidden.
pub open spec fn wanted(album: Album, groups: Seq<ReleaseGroup>, hide_remixes: bool) -> bool {
    &&& exists|k: int| 0 <= k < groups.len() && of_group(album, #[trigger] groups[k])
    &&& !(hide_remixes && has_part(lowercase(album.name@), "remix"@))
}

proof fn passing_is_being_wanted(album: Album, groups: Seq<ReleaseGroup>, hide_remixes: bool)
    ensures
        passes(
            album,
            FactsModel { identity: identity(album), remix: named_remix(album) },
            groups,
            hide_remixes,
        ) == wanted(album, groups, hide_remixes),
{
    assert(in_groups(album, groups) == exists|k: int|
        0 <= k < groups.len() && of_group(album, #[trigger] groups[k])) by {
        if in_groups(album, groups) {
            let i = choose|i: int|
                0 <= i < groups.len() && crate::release_view::group_of(album) == Some(
                    (#[trigger] groups[i]).spotify_value_spec(),
                );
            assert(of_group(album, groups[i]));
        }
        if exists|k: int| 0 <= k < groups.len() && of_group(album, #[trigger] groups[k]) {
            let k = choose|k: int| 0 <= k < groups.len() && of_group(album, #[trigger] groups[k]);
            assert(crate::release_view::group_of(album) == Some(groups[k].spotify_value_spec()));
        }
    }
}

/// Every song of every release that was asked for is shown, with the day the release
/// came out, and no other song is. With repeated releases hidden, a release is left
/// out when one that is the same stands in front of it.
pub proof fn every_song_of_a_wanted_release_is_shown(
    releases: Seq<Album>,
    groups: Seq<ReleaseGroup>,
    hide_remixes: bool,
    hide_duplicates: bool,
    i: int,
    t: int,
)
    requires
        0 <= i < releases.len(),
        releases[i].tracks matches Some(page) && 0 <= t < page.items@.len(),
        wanted(releases[i], groups, hide_remixes),
        hide_duplicates ==> forall|j: int|
            0 <= j < i && wanted(#[trigger] releases[j], groups, hide_remixes) ==> identity(
                releases[j],
            ) != identity(releases[i]),
    ensures
        shown_tracks(releases, groups, hide_remixes, hide_duplicates).contains(
            (releases[i].tracks->0.items@[t], releases[i].release_date),
        ),
    decreases releases.len(),
{
    let facts = facts_of(releases);
    let last = releases.len() - 1;
    let (earlier, known) = (releases.drop_last(), facts.drop_last());
    assert(known =~= facts_of(earlier));
    let before = shown_by(earlier, known, groups, hide_remixes, hide_duplicates);
    let whole = shown_by(releases, facts, groups, hide_remixes, hide_duplicates);
    let shown = (releases[i].tracks->0.items@[t], releases[i].release_date);
    if i < last {
        assert forall|j: int|
            hide_duplicates && 0 <= j < i && wanted(
                #[trigger] earlier[j],
                groups,
                hide_remixes,
            ) implies identity(earlier[j]) != identity(earlier[i]) by {
            assert(earlier[j] == releases[j]);
        }
        every_song_of_a_wanted_release_is_shown(
            earlier,
            groups,
            hide_remixes,
            hide_duplicates,
            i,
            t,
        );
        let k = before.index_of(shown);
        assert(whole[k] == shown);
    } else {
        passing_is_being_wanted(releases[i], groups, hide_remixes);
        if hide_duplicates {
            if identities(earlier, known, groups, hide_remixes).contains(facts[i].identity) {
                let j = identities_come_from_releases(
                    earlier,
                    groups,
                    hide_remixes,
                    facts[i].identity,
                );
                assert(wanted(releases[j], groups, hide_remixes));
            }
        }
        let more = tracks_of(releases[i]).map_values(
            |track: Track| (track, releases[i].release_date),
        );
        assert(whole == before + more);
        assert(more[t] == shown);
        assert(whole[before.len() + t] == shown);
    }
}

proof fn identities_come_from_releases(
    releases: Seq<Album>,
    groups: Seq<ReleaseGroup>,
    hide_remixes: bool,
    id: Seq<char>,
) -> (j: int)
    requires
        identities(releases, facts_of(releases), groups, hide_remixes).contains(id),
    ensures
        0 <= j < releases.len(),
        wanted(releases[j], groups, hide_remixes),
        identity(releases[j]) == id,
    decreases releases.len(),
{
    let facts = facts_of(releases);
    let last = releases.len() - 1;
    assert(facts.drop_last() =~= facts_of(releases.drop_last()));
    let before = identities(releases.drop_last(), facts.drop_last(), groups, hide_remixes);
    let all = identities(releases, facts, groups, hide_remixes);
    passing_is_being_wanted(releases[last], groups, hide_remixes);
    let k = all.index_of(id);
    assert(all[k] == id);
    if k < before.len() {
        assert(before[k] == id);
        identities_come_from_releases(releases.drop_last(), groups, hide_remixes, id)
    } else {
        last
    }
}

/// Whatever is shown is a song of a release that was asked for, with the day that the
/// release came out.
pub proof fn only_songs_of_wanted_releases_are_shown(
    releases: Seq<Album>,
    groups: Seq<ReleaseGroup>,
    hide_remixes: bool,
    hide_duplicates: bool,
    at: int,
) -> (i: int)
    requires
        0 <= at < shown_tracks(releases, groups, hide_remixes, hide_duplicates).len(),
    ensures
        0 <= i < releases.len(),
        wanted(releases[i], groups, hide_remixes),
        releases[i].tracks is Some,
        releases[i].tracks->0.items@.contains(
            shown_tracks(releases, groups, hide_remixes, hide_duplicates)[at].0,
        ),
        shown_tracks(releases, groups, hide_remixes, hide_duplicates)[at].1
            == releases[i].release_date,
    decreases releases.len(),
{
    let facts = facts_of(releases);
    let last = releases.len() - 1;
    assert(facts.drop_last() =~= facts_of(releases.drop_last()));
    let before = shown_by(
        releases.drop_last(),
        facts.drop_last(),
        groups,
        hide_remixes,
        hide_duplicates,
    );
    if at < before.len() {
        only_songs_of_wanted_releases_are_shown(
            releases.drop_last(),
            groups,
            hide_remixes,
            hide_duplicates,
            at,
        )
    } else {
        passing_is_being_wanted(releases[last], groups, hide_remixes);
        let more = tracks_of(releases[last]);
        assert(more[at - before.len()] == shown_tracks(
            releases,
            groups,
            hide_remixes,
            hide_duplicates,
        )[at].0);
        last
    }
}

/// Two releases are the same when they came out on the same day, are by the same artists
/// and have the same title, whatever the case of the letters, the kind of brackets or the
/// apostrophe; and when they are the same, all of that holds.
pub proof fn releases_are_the_same_by_day_artists_and_title(a: Album, b: Album)
    requires
        a.release_date is Some && b.release_date is Some,
        forall|i: int| 0 <= i < a.release_date->0@.len() ==> (#[trigger] a.release_date->0@[i])
            != '\0',
        forall|i: int| 0 <= i < b.release_date->0@.len() ==> (#[trigger] b.release_date->0@[i])
            != '\0',
    ensures
        a.release_date->0@ == b.release_date->0@ && lower_names(a.artists@) == lower_names(
            b.artists@,
        ) && lowercase(plain_title(a.name@)) == lowercase(plain_title(b.name@)) ==> identity(a)
            == identity(b),
        identity(a) == identity(b) ==> a.release_date->0@ == b.release_date->0@,
        identity(a) == identity(b) && artists_key(a.artists@) == artists_key(b.artists@)
            ==> lowercase(plain_title(a.name@)) == lowercase(plain_title(b.name@)),
        identity(a) == identity(b) && lowercase(plain_title(a.name@)).len() == lowercase(
            plain_title(b.name@),
        ).len() ==> artists_key(a.artists@) == artists_key(b.artists@) && lowercase(
            plain_title(a.name@),
        ) == lowercase(plain_title(b.name@)),
{
    reveal_strlit("\0");
    let (da, db) = (a.release_date->0@, b.release_date->0@);
    let (ka, kb) = (artists_key(a.artists@), artists_key(b.artists@));
    let (ta, tb) = (lowercase(plain_title(a.name@)), lowercase(plain_title(b.name@)));
    let (x, y) = (identity(a), identity(b));
    assert("\0"@ =~= seq!['\0']);
    assert(x =~= da + seq!['\0'] + ka + seq!['\0'] + ta);
    assert(y =~= db + seq!['\0'] + kb + seq!['\0'] + tb);
    if x == y {
        assert(x[da.len() as int] == '\0');
        assert(y[db.len() as int] == '\0');
        if da.len() < db.len() {
            assert(y[da.len() as int] == db[da.len() as int]);
        } else if db.len() < da.len() {
            assert(x[db.len() as int] == da[db.len() as int]);
        }
        assert(da =~= x.take(da.len() as int));
        assert(db =~= y.take(db.len() as int));
        if ta.len() == tb.len() || ka == kb {
            assert(da.len() == db.len());
            assert(x.len() == da.len() + ka.len() + ta.len() + 2);
            assert(y.len() == db.len() + kb.len() + tb.len() + 2);
            assert(ka.len() == kb.len());
            let from = da.len() as int + 1;
            assert(ka =~= x.subrange(from, from + ka.len()));
            assert(kb =~= y.subrange(from, from + kb.len()));
            assert(ta =~= x.skip(from + ka.len() + 1));
            assert(tb =~= y.skip(from + kb.len() + 1));
        }
    }
}

/// A title is compared with round brackets for square ones and a straight apostrophe for
/// a curly one; every other character stays.
pub proof fn titles_are_compared_plainly(title: Seq<char>, i: int)
    requires
        0 <= i < title.len(),
    ensures
        plain_title(title).len() == title.len(),
        title[i] == '[' ==> plain_title(title)[i] == '(',
        title[i] == ']' ==> plain_title(title)[i] == ')',
        title[i] == '\u{2019}' ==> plain_title(title)[i] == '\'',
        title[i] != '[' && title[i] != ']' && title[i] != '\u{2019}' ==> plain_title(title)[i]
            == title[i],
{
}

/// A row is found by a part of its song's name, of one of its artists' names, or of its
/// album's name, whatever the case of the letters, and by nothing else.
pub proof fn a_row_is_found_by_its_names(row: ReleaseRow, track: Track, filter: Seq<char>)
    requires
        row.item == PlayableItem::Track(track),
    ensures
        row_matches(row, filter) == ({
            let wanted = lowercase(filter);
            ||| has_part(lowercase(track.name@), wanted)
            ||| exists|i: int|
                0 <= i < track.artists@.len() && has_part(
                    lowercase((#[trigger] track.artists@[i]).name@),
                    wanted,
                )
            ||| track.album matches Some(album) && has_part(lowercase(album.name@), wanted)
        }),
{
    let list = row_texts(row);
    let low = crate::release_view::lowered(list);
    let wanted = lowercase(filter);
    let n = track.artists@.len() as int;
    assert(list[0] == track.name@);
    if row_matches(row, filter) {
        let i = choose|i: int| 0 <= i < low.len() && has_part(#[trigger] low[i], wanted);
        assert(low[i] == lowercase(list[i]));
        if 0 < i <= n {
            assert(list[i] == track.artists@[i - 1].name@);
        }
    }
    if has_part(lowercase(track.name@), wanted) {
        assert(has_part(low[0], wanted));
    }
    if exists|i: int|
        0 <= i < n && has_part(lowercase((#[trigger] track.artists@[i]).name@), wanted) {
        let i = choose|i: int|
            0 <= i < n && has_part(lowercase((#[trigger] track.artists@[i]).name@), wanted);
        assert(list[i + 1] == track.artists@[i].name@);
        assert(has_part(low[i + 1], wanted));
    }
    if track.album is Some && has_part(lowercase(track.album->0.name@), wanted) {
        assert(list[n + 1] == track.album->0.name@);
        assert(has_part(low[n + 1], wanted));
    }
}

/// The rows that a filter finds are those that match it, each once and in their order.
pub proof fn a_filter_finds_every_row_that_matches(
    rows: Seq<ReleaseRow>,
    filter: Seq<char>,
    i: int,
)
    requires
        rows.len() <= usize::MAX,
        0 <= i < rows.len(),
    ensures
        matching(rows, filter).contains(i as usize) == row_matches(rows[i], filter),
        forall|a: int, b: int|
            0 <= a < b < matching(rows, filter).len() ==> #[trigger] matching(rows, filter)[a]
                < #[trigger] matching(rows, filter)[b],
        forall|a: int|
            0 <= a < matching(rows, filter).len() ==> (#[trigger] matching(rows, filter)[a])
                < rows.len(),
    decreases rows.len(),
{
    matching_is_ascending(rows, filter);
    let all = matching(rows, filter);
    let before = matching(rows.drop_last(), filter);
    matching_is_ascending(rows.drop_last(), filter);
    if i < rows.len() - 1 {
        a_filter_finds_every_row_that_matches(rows.drop_last(), filter, i);
        if before.contains(i as usize) {
            let k = before.index_of(i as usize);
            assert(all[k] == i as usize);
        }
        if all.contains(i as usize) {
            let k = all.index_of(i as usize);
            if k < before.len() {
                assert(before[k] == i as usize);
            }
        }
    } else {
        if row_matches(rows[i], filter) {
            assert(all[before.len() as int] == i as usize);
        } else if all.contains(i as usize) {
            let k = all.index_of(i as usize);
            assert(before[k] == i as usize);
        }
    }
}

proof fn matching_is_ascending(rows: Seq<ReleaseRow>, filter: Seq<char>)
    requires
        rows.len() <= usize::MAX,
    ensures
        forall|a: int, b: int|
            0 <= a < b < matching(rows, filter).len() ==> #[trigger] matching(rows, filter)[a]
                < #[trigger] matching(rows, filter)[b],
        forall|a: int|
            0 <= a < matching(rows, filter).len() ==> (#[trigger] matching(rows, filter)[a])
                < rows.len(),
    decreases rows.len(),
{
    let all = matching(rows, filter);
    if rows.len() > 0 {
        matching_is_ascending(rows.drop_last(), filter);
        let before = matching(rows.drop_last(), filter);
        assert forall|a: int| 0 <= a < all.len() implies (#[trigger] all[a]) < rows.len() by {
            if a < before.len() {
                assert(all[a] == before[a]);
            }
        }
        assert forall|a: int, b: int| 0 <= a < b < all.len() implies #[trigger] all[a]
            < #[trigger] all[b] by {
            assert(all[a] == before[a]);
            if b < before.len() {
                assert(all[b] == before[b]);
            }
        }
    }
}

/// As many releases are counted as there are different albums among the rows.
pub proof fn different_albums_are_counted(rows: Seq<ReleaseRow>, i: int)
    ensures
        with_all(Seq::empty(), row_albums(rows)).len() == row_albums(rows).to_set().len(),
        0 <= i < rows.len() ==> (rows[i].item matches PlayableItem::Track(track) ==> (track.album
            matches Some(album) ==> row_albums(rows).contains(album.id@))),
    decreases rows.len(),
{
    let ids = row_albums(rows);
    with_all_is_a_union(Seq::empty(), ids);
    let all = with_all(Seq::empty(), ids);
    assert(all.to_set() =~= ids.to_set());
    all.unique_seq_to_set();
    if 0 <= i < rows.len() {
        let before = row_albums(rows.drop_last());
        if i == rows.len() - 1 {
            if row_album(rows[i]) is Some {
                assert(ids[before.len() as int] == row_album(rows[i])->0);
            }
        } else {
            different_albums_are_counted(rows.drop_last(), i);
            if row_album(rows[i]) is Some {
                let k = before.index_of(row_album(rows[i])->0);
                assert(ids[k] == row_album(rows[i])->0);
            }
        }
    }
}

/// The table is shown once there is a row to show; until then the page says what it is
/// waiting for, or why there is nothing.
pub proof fn the_page_shows_what_there_is(
    loading: Loading,
    refreshing: bool,
    releases: nat,
    rows: nat,
    visible: nat,
)
    ensures
        rows > 0 && visible > 0 ==> page_content(
            Loading::Loaded,
            refreshing,
            releases,
            rows,
            visible,
        ) == PageContent::Table,
        rows > 0 ==> page_content(Loading::Loaded, refreshing, releases, rows, 0)
            == PageContent::NothingFound,
        releases > 0 ==> page_content(Loading::Loaded, refreshing, releases, 0, visible)
            == PageContent::NothingMatches,
        page_content(Loading::Loaded, refreshing, 0, 0, visible) == PageContent::NothingRecent,
        page_content(Loading::Failed, refreshing, releases, rows, visible)
            == PageContent::ErrorRow,
        loading == Loading::NotLoaded || loading == Loading::Loading ==> page_content(
            loading,
            false,
            releases,
            rows,
            visible,
        ) == PageContent::LoadingRow && page_content(loading, true, releases, rows, visible)
            == PageContent::Nothing,
        PageContent::NothingMatches.advice() == Some(
            ("No matching releases"@, "Try widening the time period or changing the filters."@),
        ),
        PageContent::NothingRecent.advice() == Some(
            ("No recent releases"@, "New tracks from the selected artists will appear here."@),
        ),
        PageContent::NothingFound.advice() == Some(
            ("No matching releases"@, "Try another artist, track, or album name."@),
        ),
        PageContent::Table.advice() is None,
{
}

/// A scan under way says how far it has come, and whether something is shown meanwhile.
pub proof fn a_scan_says_how_far_it_has_come(completed: usize, total: usize, found: usize)
    ensures
        progress_sentence(None) == "Preparing the release scan\u{2026}"@,
        progress_sentence(
            Some(
                ReleaseScanProgress {
                    phase: ReleaseScanPhase::CollectingArtists,
                    completed,
                    total,
                    found_releases: found,
                },
            ),
        ) == "Collecting artists from your Spotify library\u{2026}"@,
        progress_sentence(
            Some(
                ReleaseScanProgress {
                    phase: ReleaseScanPhase::ScanningArtists,
                    completed,
                    total,
                    found_releases: found,
                },
            ),
        ) == "Checking artist "@ + decimal(completed as nat) + " of "@ + decimal(total as nat)
            + " \u{b7} "@ + decimal(found as nat) + " releases found"@,
        progress_sentence(
            Some(
                ReleaseScanProgress {
                    phase: ReleaseScanPhase::LoadingTracks,
                    completed,
                    total,
                    found_releases: found,
                },
            ),
        ) == "Loading tracks for release "@ + decimal(completed as nat) + " of "@ + decimal(
            total as nat,
        ),
        progress_prefix(true) == "Refreshing saved results \u{b7} "@,
        progress_prefix(false) == ""@,
{
}

/// The table has a row for every song that is shown, in their order, each with its song and
/// the day it came out.
pub proof fn the_table_has_a_row_for_every_song(
    releases: Vec<Album>,
    groups: Vec<ReleaseGroup>,
    hide_remixes: bool,
    hide_duplicates: bool,
    rows: Vec<ReleaseRow>,
    i: int,
)
    requires
        call_ensures(release_rows, (&releases, &groups, hide_remixes, hide_duplicates), rows),
    ensures
        ({
            let shown = shown_tracks(releases@, groups@, hide_remixes, hide_duplicates);
            &&& rows@.len() == shown.len()
            &&& 0 <= i < shown.len() ==> (rows@[i].item matches PlayableItem::Track(track)
                && track.id == shown[i].0.id && track.name == shown[i].0.name && track.uri
                == shown[i].0.uri && track.artists@ == shown[i].0.artists@ && track.album
                == shown[i].0.album && rows@[i].released == shown[i].1)
        }),
{
}

/// The filter, the count, the page and the progress are shown as they are stated.
pub proof fn the_page_is_shown_as_it_is_stated(
    rows: Vec<ReleaseRow>,
    filter: &str,
    found: Vec<usize>,
    count: usize,
    loading: Loading,
    refreshing: bool,
    releases: usize,
    kept: usize,
    visible: usize,
    content: PageContent,
    progress: ReleaseScanProgress,
    cached: bool,
    shown: ProgressView,
)
    requires
        call_ensures(matching_rows, (&rows, filter), found),
        call_ensures(visible_release_count, (&rows,), count),
        call_ensures(show, (loading, refreshing, releases, kept, visible), content),
        call_ensures(scan_progress, (Some(progress), cached), shown),
    ensures
        found@ == matching(rows@, filter@),
        count == row_albums(rows@).to_set().len(),
        content == page_content(
            loading,
            refreshing,
            releases as nat,
            kept as nat,
            visible as nat,
        ),
        shown.text@ == progress_prefix(cached) + progress_sentence(Some(progress)),
        progress.phase == ReleaseScanPhase::CollectingArtists ==> shown.bar is None,
        progress.phase != ReleaseScanPhase::CollectingArtists ==> shown.bar == Some(
            (progress.completed, progress.total),
        ),
{
    different_albums_are_counted(rows@, 0);
}

/// A week, a month, a quarter and a year can be chosen, and the chosen one is marked. The
/// number of liked songs is set when it was entered and liked songs are a source.
pub proof fn the_filters_offer_their_choices(
    chosen: u16,
    offered: Vec<Period>,
    sources: Vec<ReleaseArtistSource>,
    draft: u16,
    setting: u16,
    set: Option<FilterAction>,
    unset: Option<FilterAction>,
    days: u16,
    line: String,
)
    requires
        call_ensures(periods, (chosen,), offered),
        call_ensures(liked_filter, (&sources, Some(draft), setting, true), set),
        call_ensures(liked_filter, (&sources, Some(draft), setting, false), unset),
        call_ensures(period_line, (days,), line),
    ensures
        offered@.len() == 4,
        offered@[0].days == 7 && offered@[1].days == 30 && offered@[2].days == 90
            && offered@[3].days == 365,
        offered@[0].selected == (chosen == 7) && offered@[1].selected == (chosen == 30)
            && offered@[2].selected == (chosen == 90) && offered@[3].selected == (chosen == 365),
        offered@[0].label@ == "7 days"@ && offered@[3].label@ == "1 year"@,
        sources@.contains(ReleaseArtistSource::LikedSongs) ==> set == Some(
            FilterAction::SetMinimumLikedTracks(draft),
        ),
        !sources@.contains(ReleaseArtistSource::LikedSongs) ==> set is None,
        unset is None,
        line@ == "Last "@ + decimal(days as nat) + " days"@,
{
}

} // verus!
