use sha2::Digest;
use spotifast::api::ApiRequest;
use spotifast::api::ApiResponse;
use spotifast::caches::{
    cached_answer, lyrics_file, lyrics_source, playlist_cache_path, releases_to_keep,
    CachedNewReleases, CachedPlaylist, LyricsSource, NewReleasesCacheRequest,
    NEW_RELEASES_CACHE_FRESH_SECONDS, NEW_RELEASES_CACHE_MAX_AGE_SECONDS,
};
use spotifast::error::ApiError;
use spotifast::file_path::{FilePath, PathStyle};
use spotifast::gateway::AccountId;
use spotifast::models::{Album, PlaylistItem};
use spotifast::paths::{
    hex_text, migrate_directory, project_names, AppDirs, Destination, Existing, MarkerFacts,
    MigrationError, ProjectPaths, Source,
};
use spotifast::releases::ReleaseArtistSource;

fn unix(text: &str) -> FilePath {
    FilePath::base(text, PathStyle::Unix)
}

fn windows(text: &str) -> FilePath {
    FilePath::base(text, PathStyle::Windows)
}

fn dirs(name: &str, shared: bool) -> AppDirs {
    let root = unix("root").join(name);
    AppDirs {
        config: root.join(if shared { "state" } else { "config" }),
        state: root.join("state"),
        cache: root.join("cache"),
    }
}

fn nothing_there() -> Existing {
    Existing {
        current_config: false,
        current_state: false,
        legacy_config: false,
        legacy_state: false,
    }
}

/// A directory tree that remembers what was moved where.
struct Disk {
    directories: Vec<(String, Vec<&'static str>)>,
}

impl Disk {
    fn files(&self, path: &FilePath) -> Option<&Vec<&'static str>> {
        self.directories.iter().find(|(name, _)| *name == path.text()).map(|(_, files)| files)
    }

    fn put(&mut self, path: &FilePath, file: &'static str) {
        let name = path.text();
        match self.directories.iter_mut().find(|(held, _)| *held == name) {
            Some((_, files)) => files.push(file),
            None => self.directories.push((name, vec![file])),
        }
    }

    fn migrate(&mut self, new: &AppDirs, old: &AppDirs) {
        for step in new.migrate_from(old) {
            let destination = match self.files(&step.to) {
                Some(_) => Destination::Present,
                None => Destination::Absent,
            };
            let source = match self.files(&step.from) {
                Some(_) => Source::Directory,
                None => Source::Absent,
            };
            if migrate_directory(destination, source).unwrap() {
                for (name, _) in self.directories.iter_mut() {
                    if *name == step.from.text() {
                        *name = step.to.text();
                    }
                }
            }
        }
    }
}

#[test]
fn migration_preserves_files_and_credential_identity_and_is_repeatable() {
    for shared in [false, true] {
        let old = dirs("old", shared);
        let new = dirs("new", shared);
        let mut disk = Disk { directories: Vec::new() };
        disk.put(&old.config, "preferences");
        disk.put(&old.state, "history");
        disk.put(&old.cache, "cover");
        let legacy_only = Existing { legacy_config: true, legacy_state: true, ..nothing_there() };
        assert_eq!(
            AppDirs::select_profile(new.clone(), old.clone(), legacy_only, true).state,
            old.state
        );
        assert_eq!(
            AppDirs::select_profile(new.clone(), old.clone(), legacy_only, false).state,
            new.state
        );
        let facts = MarkerFacts {
            old_state_is_dir: true,
            new_state_exists: false,
            marker_exists: false,
        };
        let marker = new_marker(&old, facts).expect("a marker for the old profile");
        assert_eq!(marker.1, old.state.join("credential-profile").text());
        assert_eq!(
            marker.0,
            format!("{:x}", sha2::Sha256::digest(old.state.text().as_bytes()))
        );
        disk.migrate(&new, &old);
        disk.migrate(&new, &old);
        let moved = Existing { current_config: true, current_state: true, ..nothing_there() };
        assert_eq!(
            AppDirs::select_profile(new.clone(), old.clone(), moved, true).state,
            new.state
        );
        assert!(disk.files(&new.config).unwrap().contains(&"preferences"));
        assert!(disk.files(&new.state).unwrap().contains(&"history"));
        assert!(disk.files(&new.cache).unwrap().contains(&"cover"));
        // A separately created old profile must not overwrite the new one.
        disk.put(&old.config, "other preferences");
        disk.migrate(&new, &old);
        assert!(disk.files(&new.config).unwrap().contains(&"preferences"));
        assert_eq!(disk.files(&old.config).unwrap(), &vec!["other preferences"]);
    }
}

fn new_marker(old: &AppDirs, facts: MarkerFacts) -> Option<(String, String)> {
    AppDirs::identity_marker(old, facts).map(|marker| (marker.text, marker.target.text()))
}

#[test]
fn a_marker_is_written_once_and_only_for_a_profile_that_moves() {
    let old = dirs("old", false);
    let facts = MarkerFacts {
        old_state_is_dir: true,
        new_state_exists: false,
        marker_exists: false,
    };
    assert!(new_marker(&old, facts).is_some());
    let marker = AppDirs::marker_with(&old, facts, &[1, 255]).expect("a marker");
    assert_eq!(marker.text, "01ff");
    assert_eq!(marker.temporary, old.state.join("credential-profile.tmp"));
    assert!(new_marker(&old, MarkerFacts { marker_exists: true, ..facts }).is_none());
    assert!(new_marker(&old, MarkerFacts { new_state_exists: true, ..facts }).is_none());
    assert!(new_marker(&old, MarkerFacts { old_state_is_dir: false, ..facts }).is_none());
}

#[test]
fn only_directories_are_moved_and_failures_are_told() {
    assert_eq!(migrate_directory(Destination::Absent, Source::Directory), Ok(true));
    assert_eq!(migrate_directory(Destination::Absent, Source::Absent), Ok(false));
    assert_eq!(migrate_directory(Destination::Present, Source::Directory), Ok(false));
    assert_eq!(
        migrate_directory(Destination::Absent, Source::Other),
        Err(MigrationError::NotADirectory)
    );
    assert_eq!(
        migrate_directory(Destination::Unreadable("denied".into()), Source::Directory),
        Err(MigrationError::Io("denied".into()))
    );
    assert_eq!(
        migrate_directory(Destination::Absent, Source::Unreadable("denied".into())),
        Err(MigrationError::Io("denied".into()))
    );
    assert_eq!(MigrationError::Io("denied".into()).message(), "denied");
}

#[test]
fn directories_follow_the_platform_or_a_fallback() {
    let home = unix("home");
    let project = ProjectPaths {
        config: "c".into(),
        state: None,
        data_local: "d".into(),
        cache: "k".into(),
    };
    let found = AppDirs::from_project("spotifast", Some(project), &home);
    assert_eq!(found.config.text(), "c");
    assert_eq!(found.state.text(), "d");
    assert_eq!(found.cache.text(), "k");
    let fallback = AppDirs::from_project("spotifast", None, &home);
    assert!(fallback.config.text().starts_with("home"));
    let here = AppDirs::discover(&home);
    let legacy = AppDirs::legacy(&home);
    for directory in [&here.config, &here.state, &here.cache] {
        assert!(directory.text().contains("spotifast"));
    }
    for directory in [&legacy.config, &legacy.state, &legacy.cache] {
        assert!(directory.text().contains("fastpotify"));
    }
    for step in here.migrate_legacy(&home) {
        assert!(step.from.text().contains("fastpotify"));
        assert!(step.to.text().contains("spotifast"));
    }
    let names = project_names("spotifast");
    assert_eq!(names.qualifier, "me");
    assert_eq!(names.organization, "paolino");
    assert_eq!(names.application, "spotifast");
    assert_ne!(here.config.text(), legacy.config.text());
    assert!(legacy.is_legacy_profile(&legacy));
    assert!(!here.is_legacy_profile(&legacy));
    assert_ne!(here.window_profile(&legacy), legacy.window_profile(&legacy));
    let launched = AppDirs::for_launch(false, nothing_there(), &home);
    assert_eq!(launched.state, here.state);
}

#[test]
fn files_stand_where_they_are_expected() {
    let d = dirs("new", false);
    assert_eq!(d.settings_file(), d.config.join("settings.json"));
    assert_eq!(d.art_cache_dir(), d.cache.join("art"));
    assert_eq!(d.ensure(), vec![d.config.clone(), d.state.clone(), d.cache.clone()]);
    assert_eq!(d.skins_dir(), d.config.join("skins"));
    assert_eq!(d.milkdrop_dir(), d.config.join("milkdrop"));
    assert_eq!(d.themes_dir(), d.config.join("themes"));
    assert_eq!(d.session_file(), d.state.join("session.json"));
    assert_eq!(d.history_file(), d.state.join("history.json"));
    assert_eq!(d.shared_web_token_file(), d.state.join("shared_web_api_token.json"));
    assert_eq!(d.personal_web_token_file(), d.state.join("personal_web_api_token.json"));
    assert_eq!(d.legacy_web_token_file(), d.state.join("web_api_token.json"));
    assert_eq!(d.log_file(), d.state.join("spotifast.log"));
    assert_eq!(d.panic_log(), d.state.join("panic.log"));
    assert_eq!(d.credentials_dir(), d.state.join("credentials"));
    assert_eq!(d.proxy_secret_file(), d.state.join("proxy_password"));
    assert_eq!(d.volume_dir(), d.state.join("volume"));
    assert_eq!(d.audio_cache_dir(), d.cache.join("audio"));
    assert_eq!(d.lyrics_cache_dir(), d.cache.join("lyrics"));
    assert_eq!(
        d.liked_songs_cache_file("a/"),
        d.cache.join("liked-songs").join("612f.json")
    );
    assert_eq!(
        d.account_new_releases_cache_dir("a/"),
        d.cache.join("new-releases").join("612f")
    );
    assert_eq!(hex_text(&[0, 171, 255]), "00abff");
    let one = d.account_playlist_cache_dir("alice");
    assert_ne!(one, d.account_playlist_cache_dir("bob"));
    assert_eq!(
        playlist_cache_path(&d, "alice", "pl1"),
        one.join("pl1.json")
    );
}

#[test]
fn release_cache_has_a_short_fresh_window_and_a_bounded_stale_window() {
    let cache = CachedNewReleases {
        saved_at: 1_000,
        releases: Vec::new(),
    };

    assert!(cache.is_fresh(1_000 + NEW_RELEASES_CACHE_FRESH_SECONDS));
    assert!(!cache.is_fresh(1_001 + NEW_RELEASES_CACHE_FRESH_SECONDS));
    assert!(cache.is_usable(1_000 + NEW_RELEASES_CACHE_MAX_AGE_SECONDS));
    assert!(!cache.is_usable(1_001 + NEW_RELEASES_CACHE_MAX_AGE_SECONDS));
    assert!(!cache.is_usable(999), "future timestamps are not trusted");
}

#[test]
fn saved_releases_are_shown_while_they_are_refreshed() {
    let saved = || {
        Some(CachedNewReleases { saved_at: 1_000, releases: vec![Album::default()] })
    };
    let fresh = cached_answer(false, saved(), 1_100).expect("a usable answer");
    assert!(!fresh.refreshing);
    assert_eq!(fresh.releases.len(), 1);
    assert!(cached_answer(true, saved(), 1_100).expect("a usable answer").refreshing);
    assert!(cached_answer(false, saved(), 9_000).expect("a usable answer").refreshing);
    assert!(cached_answer(false, saved(), 999).is_none());
    assert!(cached_answer(false, None, 1_100).is_none());
    let answer = ApiResponse::NewReleases { generation: 1, result: Ok(vec![Album::default()]) };
    assert_eq!(releases_to_keep(&answer).map(Vec::len), Some(1));
    let failed = ApiResponse::NewReleases { generation: 1, result: Err(ApiError::RateLimited) };
    assert!(releases_to_keep(&failed).is_none());
}

#[test]
fn every_choice_of_a_scan_is_kept_apart() {
    let d = dirs("new", false);
    let alice = AccountId::new("alice");
    let scan = |days: u16, sources: Vec<ReleaseArtistSource>, liked: u16| {
        let request = ApiRequest::NewReleases {
            days,
            artist_sources: sources,
            minimum_liked_tracks: liked,
            force_refresh: false,
            generation: 7,
        };
        NewReleasesCacheRequest::for_request(&d, Some(&alice), &request)
            .expect("a scan is cached")
    };
    let followed = scan(30, vec![ReleaseArtistSource::FollowedArtists], 2);
    assert_eq!(followed.generation, 7);
    assert_eq!(followed.account_id, "alice");
    let liked = scan(30, vec![ReleaseArtistSource::LikedSongs], 2);
    let longer = scan(90, vec![ReleaseArtistSource::FollowedArtists], 2);
    let stricter = scan(30, vec![ReleaseArtistSource::LikedSongs], 3);
    assert_ne!(followed.path, liked.path);
    assert_ne!(followed.path, longer.path);
    assert_ne!(liked.path, stricter.path);
    assert!(NewReleasesCacheRequest::for_request(&d, Some(&alice), &ApiRequest::Me).is_none());
}

#[test]
fn cached_playlists_are_checked_before_they_are_shown() {
    let rows = |n: usize| (0..n).map(|_| PlaylistItem::default()).collect::<Vec<_>>();
    let whole = CachedPlaylist {
        snapshot: "old".into(),
        items: rows(3),
        total: None,
        next_offset: None,
    };
    let read = whole.checked().expect("a whole playlist");
    assert_eq!((read.total, read.items.len()), (3, 3));
    let part = CachedPlaylist::checkpoint("s".into(), rows(2), 10, Some(2));
    let read = part.checked().expect("a part of a playlist");
    assert_eq!((read.total, read.next_offset), (10, Some(2)));
    assert!(CachedPlaylist::checkpoint("s".into(), rows(3), 2, None).checked().is_none());
    assert!(CachedPlaylist::checkpoint("s".into(), rows(1), 2, Some(3)).checked().is_none());
}

#[test]
fn spotifys_own_lyrics_go_first() {
    assert_eq!(lyrics_file("spotify:track:abc").as_deref(), Some("spotify-abc.json"));
    assert_eq!(lyrics_file("spotify:episode:abc"), None);
    assert_eq!(lyrics_source(true, Some(true), false), LyricsSource::Kept);
    assert_eq!(lyrics_source(true, None, true), LyricsSource::Session);
    assert_eq!(lyrics_source(true, None, false), LyricsSource::Library);
    assert_eq!(lyrics_source(false, None, true), LyricsSource::Library);
}

#[test]
fn paths_are_joined_as_the_platform_joins_them() {
    let joined = |path: &str, name: &str| unix(path).join(name).text();
    for (path, name) in [
        ("a", "b"),
        ("/a/", "b"),
        ("", "b"),
        ("/a", "/b"),
        ("a", ""),
        ("/", "b"),
        ("a/b", "c/d"),
    ] {
        let expected = std::path::Path::new(path).join(name);
        assert_eq!(joined(path, name), expected.to_string_lossy());
    }
    let d = dirs("new", false);
    assert_eq!(d.account_playlist_cache_dir("/x").text(), "/x");
}

#[test]
fn paths_are_the_same_when_they_lead_to_the_same_place() {
    let spelled = ["", ".", "a", "./a", "a/", "a//b", "a/b", "a/./b", "/a", "//a", "/a/.", "../a", "a/.."];
    for a in spelled {
        for b in spelled {
            assert_eq!(
                unix(a).same(&unix(b)),
                std::path::Path::new(a) == std::path::Path::new(b),
                "{a} and {b}"
            );
        }
    }
}

#[test]
fn a_directory_of_both_profiles_is_left_where_it_is() {
    let old = dirs("old", false);
    let new = AppDirs { cache: old.cache.clone(), ..dirs("new", false) };
    let mut disk = Disk { directories: Vec::new() };
    disk.put(&old.config, "preferences");
    disk.put(&old.cache, "cover");
    disk.migrate(&new, &old);
    disk.migrate(&new, &old);
    assert_eq!(disk.files(&new.config).unwrap(), &vec!["preferences"]);
    assert_eq!(disk.files(&new.cache).unwrap(), &vec!["cover"]);
    assert!(disk.files(&old.config).is_none());
}

#[test]
fn windows_paths_are_joined_behind_their_prefix() {
    let joined = |path: &str, name: &str| windows(path).join(name).text();
    for (path, name, expected) in [
        ("C:\\a", "b", "C:\\a\\b"),
        ("C:\\a\\", "b", "C:\\a\\b"),
        ("C:\\a/", "b", "C:\\a/b"),
        ("C:/a", "b", "C:/a\\b"),
        ("C:", "b", "C:b"),
        ("", "b", "b"),
        ("a", "", "a\\"),
        ("C:\\a", "\\b", "C:\\b"),
        ("C:\\a", "/b", "C:/b"),
        ("C:\\a", "D:b", "D:b"),
        ("C:\\a", "D:\\b", "D:\\b"),
        ("C:\\a", "\\\\server\\share\\b", "\\\\server\\share\\b"),
        ("\\\\server\\share\\a", "\\b", "\\\\server\\share\\b"),
        ("\\\\server\\share", "b", "\\\\server\\share\\b"),
        ("\\\\?\\C:\\a", "b/c", "\\\\?\\C:\\a\\b\\c"),
        ("\\\\?\\C:\\a", "..\\.\\b", "\\\\?\\C:\\b"),
        ("\\\\?\\C:\\a", "/b", "\\\\?\\C:\\b"),
        ("\\\\?\\C:\\a", "..", "\\\\?\\C:\\"),
    ] {
        assert_eq!(joined(path, name), expected, "{path} and {name}");
    }
    // A backslash is part of a name elsewhere.
    assert_eq!(unix("a").join("\\b").text(), "a/\\b");
}

#[test]
fn windows_paths_are_compared_by_their_parts() {
    let same = |a: &str, b: &str| windows(a).same(&windows(b));
    assert!(same("C:\\a\\b", "C:/a/b"));
    assert!(same("c:\\a", "C:\\a"));
    assert!(same("C:\\a\\.\\\\b\\", "C:\\a\\b"));
    assert!(same("\\\\server\\share", "//server/share/"));
    assert!(same("\\\\?\\c:\\a", "\\\\?\\C:\\a\\"));
    assert!(!same("C:\\a", "C:a"));
    assert!(!same("C:\\a", "D:\\a"));
    assert!(!same("C:\\a", "C:\\A"));
    assert!(!same("C:.\\a", "C:a"));
    assert!(!same("\\\\server\\share", "\\\\server\\other"));
    assert!(!same("\\\\?\\C:\\a", "C:\\a"));
    assert!(!same("\\\\?\\C:\\a/b", "\\\\?\\C:\\a\\b"));
    // A drive is a name elsewhere.
    assert!(!unix("C:/a").same(&unix("c:/a")));
    assert!(!unix("a\\b").same(&unix("a/b")));
}

#[test]
fn a_path_that_is_no_text_stays_what_it_is() {
    let raw = vec![b'/', b'h', 0xff, b'/', b'c'];
    let project = ProjectPaths {
        config: raw.clone(),
        state: Some(raw.clone()),
        data_local: Vec::new(),
        cache: raw.clone(),
    };
    let found = AppDirs::from_project("spotifast", Some(project), &unix("home"));
    assert_eq!(found.config, FilePath { raw: raw.clone(), style: PathStyle::Unix });
    let file = found.settings_file();
    assert_eq!(file.raw, [raw.as_slice(), b"/settings.json"].concat());
    assert_eq!(found.state.text(), "/h\u{fffd}/c");
    assert!(!found.state.same(&unix("/h\u{fffd}/c")));
    // An identity was written down for the text.
    let facts = MarkerFacts {
        old_state_is_dir: true,
        new_state_exists: false,
        marker_exists: false,
    };
    let marker = AppDirs::identity_marker(&found, facts).expect("a marker");
    let text = String::from_utf8_lossy(&raw).into_owned();
    assert_eq!(marker.text, format!("{:x}", sha2::Sha256::digest(text.as_bytes())));
}

#[test]
fn accounts_stay_below_their_directory_on_every_platform() {
    for id in ["..", "/x", "C:\\x", "\\\\server\\share"] {
        let name = hex_text(id.as_bytes());
        for root in ["C:\\k", "k", "\\\\server\\share", "\\\\?\\C:\\k"] {
            let cache = windows(root);
            let d = AppDirs { config: windows("c"), state: windows("s"), cache };
            let found = d.account_new_releases_cache_dir(id).text();
            assert_eq!(found, format!("{root}\\new-releases\\{name}"));
        }
    }
}

/// Files in directories that lie in one another.
struct Tree {
    files: Vec<String>,
}

impl Tree {
    fn has(&self, path: &FilePath) -> bool {
        let inside = format!("{}/", path.text());
        self.files.iter().any(|file| file.starts_with(&inside))
    }

    fn migrate(&mut self, new: &AppDirs, old: &AppDirs) {
        for step in new.migrate_from(old) {
            let destination =
                if self.has(&step.to) { Destination::Present } else { Destination::Absent };
            let source = if self.has(&step.from) { Source::Directory } else { Source::Absent };
            if migrate_directory(destination, source).unwrap() {
                let inside = format!("{}/", step.from.text());
                for file in self.files.iter_mut() {
                    if let Some(rest) = file.strip_prefix(&inside) {
                        *file = format!("{}/{rest}", step.to.text());
                    }
                }
            }
        }
    }
}

#[test]
fn directories_in_one_another_move_together_and_once() {
    let old = AppDirs {
        config: unix("/old"),
        state: unix("/old/state"),
        cache: unix("/old/state/cache"),
    };
    let new = AppDirs {
        config: unix("/new"),
        state: unix("/new/state"),
        cache: unix("/new/state/cache"),
    };
    let mut tree = Tree {
        files: vec!["/old/a".into(), "/old/state/b".into(), "/old/state/cache/c".into()],
    };
    tree.migrate(&new, &old);
    let moved = vec!["/new/a".to_owned(), "/new/state/b".into(), "/new/state/cache/c".into()];
    assert_eq!(tree.files, moved);
    tree.migrate(&new, &old);
    assert_eq!(tree.files, moved);
}
