use std::sync::Arc;

use spotifast::models::{
    Album, Artist, ArtistRef, CursorPage, Cursors, Page, PlayableItem, SavedAlbum, SavedTrack,
    Track,
};
use spotifast::client::ApiClient;
use spotifast::error::ApiSource;
use spotifast::release_library::{Collecting, LibraryAsk};
use spotifast::release_order::{rank_with, release_order, sort_releases};
use spotifast::release_scan::{
    add_matched_release, collect_artists, prefer_release_group, release_group_rank,
    remaining_pages, retain_matching_release_tracks, AlbumWalk, FollowedWalk, MatchedRelease,
    ReleaseScan, TrackWalk,
};
use spotifast::release_view::{
    any_holds, count_line, filter_texts, identity_with, liked_filter, matching_rows, period_line,
    periods, plain_text, release_identity, release_rows, rows_with, scan_progress, show,
    source_page, submitted, visible_release_count, FilterAction, LibraryPage, Loading, PageContent,
    ReleaseFacts, ReleaseGroup,
};
use spotifast::releases::{
    add_saved_album_artist_ids, count_liked_track_artists, is_recent, qualified_liked_artist_ids,
    release_cutoff, release_horizon, ArtistCounts, ReleaseArtistSource, ReleaseScanPhase,
    ReleaseScanProgress,
};
use spotifast::sets::TextSet;
use spotifast::text::Rank;

fn artist(id: &str) -> ArtistRef {
    ArtistRef { id: Some(id.into()), ..ArtistRef::default() }
}

fn named_track(name: &str, artists: Vec<ArtistRef>) -> Track {
    Track { name: name.into(), artists, ..Track::default() }
}

fn set(ids: &[&str]) -> TextSet {
    let mut r = TextSet::new();
    for id in ids {
        r.insert(id.to_string());
    }
    r
}

fn members(ids: &TextSet) -> Vec<String> {
    let mut r: Vec<String> = (0..ids.len()).map(|index| ids.get(index).clone()).collect();
    r.sort();
    r
}

fn names(album: &Album) -> Vec<&str> {
    let tracks = album.tracks.as_ref().expect("an album with tracks");
    tracks.items.iter().map(|track| track.name.as_str()).collect()
}

/// Noon on 8 September 2026, in universal time.
const NOON: i64 = 1_788_868_800;

#[test]
fn release_cutoff_is_an_inclusive_calendar_date() {
    let now: jiff::Timestamp = "2026-09-08T12:00:00Z".parse().unwrap();
    assert_eq!(now.as_second(), NOON);
    assert_eq!(release_cutoff(30, now.as_second()), "2026-08-09");
    let today = Some("2026-08-09".to_string());
    assert!(is_recent(&today, "2026-08-09", &release_horizon(NOON)));
    let before = Some("2026-08-08".to_string());
    assert!(!is_recent(&before, "2026-08-09", &release_horizon(NOON)));
}

#[test]
fn releases_of_tomorrow_are_shown_and_later_ones_are_not() {
    assert_eq!(release_horizon(NOON), "2026-09-09");
    let tomorrow = Some("2026-09-09".to_string());
    assert!(is_recent(&tomorrow, "2026-08-09", "2026-09-09"));
    let later = Some("2026-09-10".to_string());
    assert!(!is_recent(&later, "2026-08-09", "2026-09-09"));
    let month = Some("2026-09".to_string());
    assert!(is_recent(&month, "2026-08-09", "2026-09-09"));
    assert!(!is_recent(&None, "2026-08-09", "2026-09-09"));
}

#[test]
fn a_primary_release_group_wins_over_an_appearance() {
    let mut held = Album {
        album_group: Some("appears_on".into()),
        ..Album::default()
    };
    let candidate = Album {
        album_group: Some("single".into()),
        ..Album::default()
    };
    prefer_release_group(&mut held, &candidate);
    assert_eq!(held.album_group.as_deref(), Some("single"));
}

#[test]
fn release_groups_rank_from_album_to_unknown() {
    let rank = |group: &str| release_group_rank(&Some(group.into()));
    assert_eq!(rank("album"), 0);
    assert_eq!(rank("single"), 1);
    assert_eq!(rank("compilation"), 2);
    assert_eq!(rank("appears_on"), 3);
    assert_eq!(rank("other"), 4);
    assert_eq!(release_group_rank(&None), 4);
    let mut held = Album { album_group: Some("album".into()), ..Album::default() };
    let candidate = Album { album_group: Some("single".into()), ..Album::default() };
    prefer_release_group(&mut held, &candidate);
    assert_eq!(held.album_group.as_deref(), Some("album"));
}

#[test]
fn liked_song_artists_must_reach_the_configured_threshold() {
    let saved = |artists: Vec<ArtistRef>| SavedTrack {
        track: Track {
            artists,
            ..Track::default()
        },
        ..SavedTrack::default()
    };
    let tracks = vec![
        saved(vec![artist("main"), artist("guest")]),
        saved(vec![artist("main")]),
        saved(vec![artist("other")]),
    ];
    let mut counts = ArtistCounts::new();
    count_liked_track_artists(&mut counts, &tracks);

    let artists = qualified_liked_artist_ids(&counts, 2);
    assert_eq!(members(&artists), vec!["main".to_string()]);
}

#[test]
fn saved_albums_include_every_credited_artist_once() {
    let album = SavedAlbum {
        album: Album {
            artists: vec![artist("main"), artist("guest"), artist("main")],
            ..Album::default()
        },
        ..SavedAlbum::default()
    };
    let mut artists = TextSet::new();
    add_saved_album_artist_ids(&mut artists, &vec![album]);

    assert_eq!(members(&artists), vec!["guest".to_string(), "main".to_string()]);
}

#[test]
fn compilation_tracks_are_limited_to_the_selected_artists() {
    let mut album = Album {
        tracks: Some(Page {
            items: vec![
                named_track("selected solo", vec![artist("selected")]),
                named_track(
                    "selected collaboration",
                    vec![artist("other"), artist("selected")],
                ),
                named_track("unrelated", vec![artist("other")]),
            ],
            total: 3,
            limit: 3,
            next: Some("next page".into()),
            ..Page::default()
        }),
        ..Album::default()
    };

    retain_matching_release_tracks(&mut album, &set(&["selected"]));

    assert_eq!(names(&album), ["selected solo", "selected collaboration"]);
    let tracks = album.tracks.unwrap();
    assert_eq!(tracks.total, 2);
    assert_eq!(tracks.limit, 2);
    assert!(tracks.next.is_none());
}

#[test]
fn followed_artists_are_walked_to_the_last_page() {
    let page = |ids: &[&str], after: Option<&str>| CursorPage {
        items: ids
            .iter()
            .map(|id| Artist { id: id.to_string(), name: "Name".into() })
            .collect(),
        cursors: Some(Cursors { after: after.map(str::to_string), before: None }),
    };
    let mut walk = FollowedWalk::new();
    assert!(walk.add_page(page(&["a", "b"], Some("b"))));
    assert_eq!(walk.after.as_deref(), Some("b"));
    assert!(!walk.add_page(page(&["b", "c"], None)));
    assert_eq!(members(&walk.artists), ["a", "b", "c"]);
}

#[test]
fn the_rest_of_a_library_is_asked_for_page_by_page() {
    let first: Page<u8> = Page {
        items: vec![0; 50],
        total: 120,
        limit: 50,
        next: Some("next".into()),
        ..Page::default()
    };
    assert_eq!(remaining_pages(&first), (50, vec![50, 100]));
    let all: Page<u8> = Page { items: vec![0; 50], total: 50, limit: 50, ..Page::default() };
    assert_eq!(remaining_pages(&all), (50, vec![]));
}

#[test]
fn artists_of_all_sources_are_scanned_once() {
    let mut all = collect_artists(&set(&["a", "b"]), &set(&["b"]), &set(&["c", "a"]));
    all.sort();
    assert_eq!(all, ["a", "b", "c"]);
}

#[test]
fn a_walk_over_albums_keeps_the_recent_ones() {
    let dated = |id: &str, date: &str| Album {
        id: id.into(),
        release_date: Some(date.into()),
        ..Album::default()
    };
    let mut walk = AlbumWalk::new("artist".into());
    let page = Page {
        items: vec![dated("new", "2026-09-01"), dated("old", "2020-01-01")],
        total: 100,
        limit: 2,
        offset: 0,
        next: Some("next".into()),
    };
    walk.add_page(page, "2026-08-09", "2026-09-09");
    let found: Vec<&str> = walk.found.iter().map(|album| album.id.as_str()).collect();
    assert_eq!(found, ["new"]);
    let mut scan = ReleaseScan::new(vec!["artist".into()]);
    assert!(scan.next_artist().is_some());
    scan.artist_scanned("artist", walk.found);
    assert_eq!(scan.next_batch(), Some(vec!["new".to_string()]));
}

#[test]
fn a_release_found_twice_names_both_artists() {
    let album = |group: &str| Album {
        id: "x".into(),
        album_group: Some(group.into()),
        ..Album::default()
    };
    let mut releases: Vec<MatchedRelease> = Vec::new();
    add_matched_release(&mut releases, "guest", album("appears_on"));
    add_matched_release(&mut releases, "main", album("album"));
    assert_eq!(releases.len(), 1);
    assert_eq!(releases[0].album.album_group.as_deref(), Some("album"));
    assert_eq!(members(&releases[0].artist_ids), ["guest", "main"]);
}

#[test]
fn a_scan_loads_what_its_artists_released() {
    let mut scan = ReleaseScan::new(vec!["a".into(), "b".into(), "c".into()]);
    assert_eq!(scan.next_artist().as_deref(), Some("a"));
    assert_eq!(scan.next_artist().as_deref(), Some("b"));
    assert_eq!(scan.next_artist(), None, "two artists are scanned side by side");
    let release = Album {
        id: "x".into(),
        name: "X".into(),
        album_group: Some("single".into()),
        ..Album::default()
    };
    let progress = scan.artist_scanned("a", vec![release]);
    assert_eq!(
        progress,
        ReleaseScanProgress {
            phase: ReleaseScanPhase::ScanningArtists,
            completed: 1,
            total: 3,
            found_releases: 1,
        }
    );
    assert_eq!(scan.next_artist().as_deref(), Some("c"));
    scan.artist_scanned("b", vec![]);
    scan.artist_scanned("c", vec![]);
    assert_eq!(scan.next_batch(), Some(vec!["x".to_string()]));
    assert_eq!(scan.next_batch(), None);
    let unknown = Album { id: "y".into(), ..Album::default() };
    assert!(scan.accept_album(unknown).is_none());
    let full = Album {
        id: "x".into(),
        name: "X".into(),
        tracks: Some(Page {
            items: vec![named_track("one", vec![artist("a")]), named_track("two", vec![artist("z")])],
            total: 3,
            limit: 2,
            next: Some("next".into()),
            ..Page::default()
        }),
        ..Album::default()
    };
    let accepted = scan.accept_album(full).expect("the album that was asked for");
    assert_eq!(accepted.album_group.as_deref(), Some("single"));
    let mut walk = TrackWalk::new(accepted);
    assert_eq!(walk.wanted, Some(2));
    walk.add_page(Page {
        items: vec![named_track("three", vec![artist("a")])],
        total: 3,
        limit: 2,
        offset: 2,
        next: None,
    });
    assert_eq!(walk.wanted, None);
    let progress = scan.album_loaded(walk.finish());
    assert_eq!(progress.phase, ReleaseScanPhase::LoadingTracks);
    assert_eq!((progress.completed, progress.total), (1, 1));
    let albums = scan.finish();
    assert_eq!(albums.len(), 1);
    assert_eq!(names(&albums[0]), ["one", "three"]);
}

#[test]
fn releases_are_shown_from_the_newest() {
    let album = |id: &str, date: &str, by: &str, name: &str| Album {
        id: id.into(),
        name: name.into(),
        release_date: Some(date.into()),
        artists: vec![ArtistRef { name: by.into(), ..ArtistRef::default() }],
        ..Album::default()
    };
    let sorted = sort_releases(vec![
        album("1", "2026-09-01", "beta", "B"),
        album("2", "2026-09-02", "Zeta", "A"),
        album("3", "2026-09-01", "Alpha", "Z"),
        album("4", "2026-09-01", "ALPHA", "y"),
        album("6", "2026-09-01", "alpha", "Y"),
    ]);
    let ids: Vec<&str> = sorted.iter().map(|album| album.id.as_str()).collect();
    assert_eq!(ids, ["2", "4", "6", "3", "1"]);
    assert_eq!(release_order(&sorted[0], &sorted[1]), Rank::Before);
    assert_eq!(release_order(&sorted[1], &sorted[0]), Rank::After);
    assert_eq!(release_order(&sorted[1], &sorted[1]), Rank::Same);
}

fn release(id: &str, name: &str, group: &str, track_name: &str) -> Album {
    let mut album = Album {
        id: id.into(),
        name: name.into(),
        uri: format!("spotify:album:{id}"),
        album_group: Some(group.into()),
        release_date: Some("2026-09-05".into()),
        artists: vec![ArtistRef {
            name: "Artist".into(),
            ..ArtistRef::default()
        }],
        ..Album::default()
    };
    let summary = album.summary();
    album.tracks = Some(Page {
        items: vec![Track {
            name: track_name.into(),
            uri: format!("spotify:track:{id}"),
            artists: summary.artists.clone(),
            album: Some(Arc::new(summary)),
            ..Track::default()
        }],
        total: 1,
        limit: 1,
        ..Page::default()
    });
    album
}

#[test]
fn release_filters_cover_groups_remixes_and_duplicates() {
    let releases = vec![
        release("one", "Fresh [Single]", "single", "Needle Song"),
        release("duplicate", "Fresh (Single)", "single", "Needle Song"),
        release("remix", "Night Remixes", "album", "Another Song"),
    ];
    let groups = ReleaseGroup::all();
    assert_eq!(release_rows(&releases, &groups, false, false).len(), 3);
    assert_eq!(release_rows(&releases, &groups, false, true).len(), 2);
    assert_eq!(release_rows(&releases, &groups, true, true).len(), 1);
    assert_eq!(
        release_rows(&releases, &vec![ReleaseGroup::Single], false, true).len(),
        1
    );
}

#[test]
fn rows_name_their_song_and_date() {
    let releases = vec![release("one", "Fresh", "single", "Needle Song")];
    let rows = release_rows(&releases, &ReleaseGroup::all(), true, true);
    assert_eq!(rows[0].released.as_deref(), Some("2026-09-05"));
    assert!(matches!(&rows[0].item, PlayableItem::Track(track) if track.name == "Needle Song"));
    assert_eq!(visible_release_count(&rows), 1);
}

#[test]
fn the_same_release_is_known_by_its_plain_title() {
    let one = release("one", "D\u{2019}Accord [Live]", "album", "x");
    let two = release("two", "d'accord (LIVE)", "album", "y");
    assert_eq!(release_identity(&one), release_identity(&two));
    assert_eq!(release_identity(&one), "2026-09-05\0artist\0d'accord (live)");
    let other = Album { release_date: None, ..release("three", "d'accord (live)", "album", "z") };
    assert_eq!(release_identity(&other), "\0artist\0d'accord (live)");
}

#[test]
fn groups_have_the_names_that_spotify_uses() {
    let values: Vec<&str> = ReleaseGroup::all().iter().map(ReleaseGroup::spotify_value).collect();
    assert_eq!(values, ["album", "single", "compilation", "appears_on"]);
}

#[test]
fn the_page_says_what_there_is_to_see() {
    assert_eq!(show(Loading::Loading, false, 0, 0, 0), PageContent::LoadingRow);
    assert_eq!(show(Loading::NotLoaded, true, 0, 0, 0), PageContent::Nothing);
    assert_eq!(show(Loading::Failed, false, 0, 0, 0), PageContent::ErrorRow);
    assert_eq!(show(Loading::Loaded, false, 3, 0, 0), PageContent::NothingMatches);
    assert_eq!(show(Loading::Loaded, false, 0, 0, 0), PageContent::NothingRecent);
    assert_eq!(show(Loading::Loaded, false, 3, 3, 0), PageContent::NothingFound);
    assert_eq!(show(Loading::Loaded, false, 3, 3, 1), PageContent::Table);
    assert_eq!(PageContent::Table.empty_state(), None);
    assert_eq!(
        PageContent::NothingRecent.empty_state(),
        Some((
            "No recent releases",
            "New tracks from the selected artists will appear here."
        ))
    );
    assert_eq!(period_line(30), "Last 30 days");
    assert_eq!(count_line("1,204", "9"), "1,204 releases, 9 songs");
    assert_eq!(source_page(ReleaseArtistSource::LikedSongs), LibraryPage::LikedSongs);
}

#[test]
fn progress_is_put_into_words() {
    let progress = ReleaseScanProgress {
        phase: ReleaseScanPhase::ScanningArtists,
        completed: 3,
        total: 12,
        found_releases: 4,
    };
    let view = scan_progress(Some(progress), true);
    assert_eq!(
        view.text,
        "Refreshing saved results \u{b7} Checking artist 3 of 12 \u{b7} 4 releases found"
    );
    assert_eq!(view.bar, Some((3, 12)));
    let view = scan_progress(Some(ReleaseScan::collecting()), false);
    assert_eq!(view.text, "Collecting artists from your Spotify library\u{2026}");
    assert_eq!(view.bar, None);
    assert_eq!(scan_progress(None, false).text, "Preparing the release scan\u{2026}");
}

#[test]
fn filters_change_one_setting_at_a_time() {
    let chosen: Vec<(u16, bool)> =
        periods(90).iter().map(|period| (period.days, period.selected)).collect();
    assert_eq!(chosen, [(7, false), (30, false), (90, true), (365, false)]);
    let sources = vec![ReleaseArtistSource::LikedSongs];
    assert_eq!(
        liked_filter(&sources, Some(4), 2, true),
        Some(FilterAction::SetMinimumLikedTracks(4))
    );
    assert_eq!(liked_filter(&sources, Some(4), 2, false), None);
    assert_eq!(liked_filter(&vec![], Some(4), 2, true), None);
    assert!(submitted(false, true, true, false));
    assert!(!submitted(false, true, false, false));
}

#[test]
fn the_chosen_parts_of_the_library_are_collected() {
    let sources = vec![ReleaseArtistSource::SavedAlbums, ReleaseArtistSource::LikedSongs];
    let (mut collecting, asks) = Collecting::start(&sources, 2);
    assert_eq!(
        asks,
        vec![
            LibraryAsk::SavedAlbums { offset: 0, limit: 50 },
            LibraryAsk::LikedSongs { offset: 0, limit: 50 },
        ]
    );
    assert_eq!(collecting.artists(), None);
    let liked = |ids: &[&str]| SavedTrack {
        track: named_track("song", ids.iter().map(|id| artist(id)).collect()),
        ..SavedTrack::default()
    };
    let first = Page {
        items: vec![liked(&["main", "guest"])],
        total: 2,
        limit: 1,
        offset: 0,
        next: Some("next".into()),
    };
    assert_eq!(
        collecting.liked_page(&first),
        vec![LibraryAsk::LikedSongs { offset: 1, limit: 1 }]
    );
    let saved = SavedAlbum {
        album: Album { artists: vec![artist("zed")], ..Album::default() },
        ..SavedAlbum::default()
    };
    let albums = Page { items: vec![saved], total: 1, limit: 50, offset: 0, next: None };
    assert!(collecting.saved_page(&albums).is_empty());
    assert_eq!(collecting.artists(), None, "a page of liked songs is missing");
    let second = Page { items: vec![liked(&["main"])], total: 2, limit: 1, offset: 1, next: None };
    assert!(collecting.liked_page(&second).is_empty());
    assert_eq!(
        collecting.artists(),
        Some(vec!["main".to_string(), "zed".to_string()])
    );
}

#[test]
fn followed_artists_are_collected_by_cursor() {
    let (mut collecting, asks) =
        Collecting::start(&vec![ReleaseArtistSource::FollowedArtists], 1);
    assert_eq!(asks, vec![LibraryAsk::Followed { after: None }]);
    let page = |id: &str, after: Option<&str>| CursorPage {
        items: vec![Artist { id: id.into(), name: String::new() }],
        cursors: Some(Cursors { after: after.map(str::to_string), before: None }),
    };
    assert_eq!(
        collecting.followed_page(page("b", Some("b"))),
        Some(LibraryAsk::Followed { after: Some("b".into()) })
    );
    assert_eq!(collecting.followed_page(page("a", None)), None);
    assert_eq!(collecting.artists(), Some(vec!["a".to_string(), "b".to_string()]));
    let (nobody, asks) = Collecting::start(&vec![], 1);
    assert!(asks.is_empty());
    assert_eq!(nobody.artists(), Some(vec![]));
}

#[test]
fn pages_of_a_scan_are_asked_for() {
    let client = ApiClient::new(10, 10, ApiSource::Personal, 0);
    let albums = AlbumWalk::new("abc".into()).next_page(&client);
    assert_eq!(albums.path, "/artists/abc/albums");
    let pairs: Vec<(&str, &str)> =
        albums.query.iter().map(|pair| (pair.name.as_str(), pair.value.as_str())).collect();
    assert_eq!(
        pairs,
        [
            ("include_groups", "album,single,compilation,appears_on"),
            ("limit", "10"),
            ("offset", "0"),
        ]
    );
    let bare = Album { id: "x".into(), ..Album::default() };
    let tracks = TrackWalk::new(bare).next_page(&client).expect("the tracks are missing");
    assert_eq!(tracks.path, "/albums/x/tracks");
    let liked = LibraryAsk::LikedSongs { offset: 50, limit: 50 }.request(&client);
    assert_eq!(liked.path, "/me/tracks");
    let followed = LibraryAsk::Followed { after: Some("z".into()) }.request(&client);
    assert_eq!(followed.query.last().map(|pair| pair.value.as_str()), Some("z"));
}

#[test]
fn releases_are_ranked_by_date_artists_name_and_id() {
    let album = |id: &str, date: Option<&str>| Album {
        id: id.into(),
        release_date: date.map(str::to_string),
        ..Album::default()
    };
    let (new, old) = (album("a", Some("2026-09-02")), album("b", Some("2026-09-01")));
    assert_eq!(rank_with(&new, &old, ("z", "a"), ("z", "a")), Rank::Before);
    assert_eq!(rank_with(&album("a", None), &old, ("", ""), ("", "")), Rank::After);
    assert_eq!(rank_with(&old, &old, ("b", "a"), ("a", "b")), Rank::After);
    assert_eq!(rank_with(&old, &old, ("a", "a"), ("a", "b")), Rank::Before);
    let (a, b) = (album("a", None), album("b", None));
    assert_eq!(rank_with(&a, &b, ("", ""), ("", "")), Rank::Before);
    assert_eq!(rank_with(&a, &a, ("", ""), ("", "")), Rank::Same);
}

#[test]
fn rows_follow_what_is_known_of_each_release() {
    let releases = vec![
        release("one", "A", "single", "x"),
        release("two", "B", "single", "y"),
        release("three", "C", "album", "z"),
    ];
    let facts: Vec<ReleaseFacts> = [("same", false), ("same", false), ("other", true)]
        .iter()
        .map(|(identity, remix)| ReleaseFacts { identity: identity.to_string(), remix: *remix })
        .collect();
    let groups = ReleaseGroup::all();
    let shown = |hide_remixes: bool, hide_duplicates: bool| {
        rows_with(&releases, &facts, &groups, hide_remixes, hide_duplicates)
            .iter()
            .map(|row| row.item.uri().to_string())
            .collect::<Vec<_>>()
    };
    assert_eq!(
        shown(false, false),
        ["spotify:track:one", "spotify:track:two", "spotify:track:three"]
    );
    assert_eq!(shown(false, true), ["spotify:track:one", "spotify:track:three"]);
    assert_eq!(shown(true, true), ["spotify:track:one"]);
    assert_eq!(plain_text("[a] \u{2019}b\u{2019}"), "(a) 'b'");
    assert_eq!(identity_with(&None, "x\0y", "t"), "\0x\0y\0t");
}

#[test]
fn the_text_filter_looks_at_tracks_artists_and_albums() {
    let releases = vec![
        release("one", "Fresh", "single", "Needle Song"),
        release("two", "Haystack", "album", "Another"),
    ];
    let rows = release_rows(&releases, &ReleaseGroup::all(), false, false);
    assert_eq!(matching_rows(&rows, "NEEDLE"), vec![0]);
    assert_eq!(matching_rows(&rows, "hay"), vec![1]);
    assert_eq!(matching_rows(&rows, "artist"), vec![0, 1]);
    assert_eq!(matching_rows(&rows, ""), vec![0, 1]);
    assert!(matching_rows(&rows, "nothing").is_empty());
    assert_eq!(filter_texts(&rows[0]), vec!["needle song", "artist", "fresh"]);
    assert!(any_holds(&vec!["abc".into()], "bc"));
    assert!(!any_holds(&vec![], ""));
}
