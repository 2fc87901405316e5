//! Where things are kept on disk, and how they got there.

use vstd::prelude::*;
use vstd::utf8::encode_utf8;

use crate::file_path::{child, lossy_text, raw_child, FilePath, PathStyle};
use crate::paths::{
    account_name, hex, launch_name, migrate_directory, migration_step, sha256_of, AppDirs,
    Destination, Existing, Marker, MarkerFacts, MigrationError, Move, ProjectPaths, Source,
};

verus! {

// ---- names --------------------------------------------------------------------------

/// A name is put behind a path with one separator between the two. One that starts at the
/// root takes the path's place, behind its drive where it has one.
pub proof fn a_name_is_put_behind_its_path(path: Seq<u8>, name: Seq<u8>, letter: u8)
    requires
        path.len() > 0,
        name.len() > 0,
    ensures
        name[0] != 47 && path.last() != 47 ==> raw_child(PathStyle::Unix, path, name) == path
            + seq![47u8] + name,
        name[0] != 47 && path.last() == 47 ==> raw_child(PathStyle::Unix, path, name) == path
            + name,
        name[0] == 47 ==> raw_child(PathStyle::Unix, path, name) == name,
        65 <= letter <= 90 && name[0] != 47 && name[0] != 92 && (name.len() > 1 ==> name[1] != 58)
            && path.last() != 47 && path.last() != 92 ==> raw_child(
            PathStyle::Windows,
            seq![letter, 58] + path,
            name,
        ) == seq![letter, 58] + path + seq![92u8] + name,
{
    if name[0] == 47 {
        assert(path.take(0) + name =~= name);
    } else if path.last() != 47 {
        assert(path.push(47) + name =~= path + seq![47u8] + name);
    }
    if 65 <= letter <= 90 && name[0] != 47 && name[0] != 92 && (name.len() > 1 ==> name[1] != 58)
        && path.last() != 47 && path.last() != 92 {
        let whole = seq![letter, 58] + path;
        assert(whole[0] == letter && whole[1] == 58);
        assert(whole.last() == path.last());
        if crate::file_path::is_verbatim(PathStyle::Windows, whole) {
            assert(whole.take(4)[0] == 92);
        }
        if crate::file_path::has_drive(PathStyle::Windows, name) {
            assert(name[1] == 58);
        }
        assert(crate::file_path::prefix_end(PathStyle::Windows, name) == 0);
        assert(whole.push(92) + name =~= whole + seq![92u8] + name);
    }
}

/// What the listener sets and adds stands in the configuration.
pub proof fn settings_stand_in_the_configuration(
    dirs: AppDirs,
    settings_file: FilePath,
    skins_dir: FilePath,
    milkdrop_dir: FilePath,
    themes_dir: FilePath,
)
    requires
        call_ensures(AppDirs::settings_file, (&dirs,), settings_file),
        call_ensures(AppDirs::skins_dir, (&dirs,), skins_dir),
        call_ensures(AppDirs::milkdrop_dir, (&dirs,), milkdrop_dir),
        call_ensures(AppDirs::themes_dir, (&dirs,), themes_dir),
    ensures
        settings_file@ == child(dirs.config@, "settings.json"@),
        skins_dir@ == child(dirs.config@, "skins"@),
        milkdrop_dir@ == child(dirs.config@, "milkdrop"@),
        themes_dir@ == child(dirs.config@, "themes"@),
{
}

/// What the application remembers stands in its state.
pub proof fn records_stand_in_the_state(
    dirs: AppDirs,
    session_file: FilePath,
    history_file: FilePath,
    shared_web_token_file: FilePath,
    personal_web_token_file: FilePath,
    legacy_web_token_file: FilePath,
    log_file: FilePath,
    panic_log: FilePath,
    credentials_dir: FilePath,
    proxy_secret_file: FilePath,
    volume_dir: FilePath,
)
    requires
        call_ensures(AppDirs::session_file, (&dirs,), session_file),
        call_ensures(AppDirs::history_file, (&dirs,), history_file),
        call_ensures(AppDirs::shared_web_token_file, (&dirs,), shared_web_token_file),
        call_ensures(AppDirs::personal_web_token_file, (&dirs,), personal_web_token_file),
        call_ensures(AppDirs::legacy_web_token_file, (&dirs,), legacy_web_token_file),
        call_ensures(AppDirs::log_file, (&dirs,), log_file),
        call_ensures(AppDirs::panic_log, (&dirs,), panic_log),
        call_ensures(AppDirs::credentials_dir, (&dirs,), credentials_dir),
        call_ensures(AppDirs::proxy_secret_file, (&dirs,), proxy_secret_file),
        call_ensures(AppDirs::volume_dir, (&dirs,), volume_dir),
    ensures
        session_file@ == child(dirs.state@, "session.json"@),
        history_file@ == child(dirs.state@, "history.json"@),
        shared_web_token_file@ == child(dirs.state@, "shared_web_api_token.json"@),
        personal_web_token_file@ == child(dirs.state@, "personal_web_api_token.json"@),
        legacy_web_token_file@ == child(dirs.state@, "web_api_token.json"@),
        log_file@ == child(dirs.state@, "spotifast.log"@),
        panic_log@ == child(dirs.state@, "panic.log"@),
        credentials_dir@ == child(dirs.state@, "credentials"@),
        proxy_secret_file@ == child(dirs.state@, "proxy_password"@),
        volume_dir@ == child(dirs.state@, "volume"@),
{
}

/// What can be had again stands in the cache.
pub proof fn what_can_be_had_again_stands_in_the_cache(
    dirs: AppDirs,
    audio_cache_dir: FilePath,
    art_cache_dir: FilePath,
    lyrics_cache_dir: FilePath,
    playlist_cache_dir: FilePath,
)
    requires
        call_ensures(AppDirs::audio_cache_dir, (&dirs,), audio_cache_dir),
        call_ensures(AppDirs::art_cache_dir, (&dirs,), art_cache_dir),
        call_ensures(AppDirs::lyrics_cache_dir, (&dirs,), lyrics_cache_dir),
        call_ensures(AppDirs::playlist_cache_dir, (&dirs,), playlist_cache_dir),
    ensures
        audio_cache_dir@ == child(dirs.cache@, "audio"@),
        art_cache_dir@ == child(dirs.cache@, "art"@),
        lyrics_cache_dir@ == child(dirs.cache@, "lyrics"@),
        playlist_cache_dir@ == child(dirs.cache@, "playlists"@),
{
}

/// What is kept for an account stands below the cache, under the account.
pub proof fn accounts_have_their_own_places(
    dirs: AppDirs,
    account_id: &str,
    playlists: FilePath,
    liked: FilePath,
    releases: FilePath,
)
    requires
        call_ensures(AppDirs::account_playlist_cache_dir, (&dirs, account_id), playlists),
        call_ensures(AppDirs::liked_songs_cache_file, (&dirs, account_id), liked),
        call_ensures(AppDirs::account_new_releases_cache_dir, (&dirs, account_id), releases),
    ensures
        playlists@ == child(child(dirs.cache@, "playlists"@), account_id@),
        liked@ == child(
            child(dirs.cache@, "liked-songs"@),
            account_name(account_id@) + ".json"@,
        ),
        releases@ == child(child(dirs.cache@, "new-releases"@), account_name(account_id@)),
{
}

/// An account's name in a path spells the bytes of its id, two digits to base sixteen each.
pub proof fn an_account_is_spelled_in_bytes(bytes: Seq<u8>, byte: u8, id: Seq<char>)
    ensures
        account_name(id) == hex(encode_utf8(id)),
        hex(Seq::empty()).len() == 0,
        hex(bytes.push(byte)).len() == hex(bytes).len() + 2,
        hex(bytes.push(byte)).take(hex(bytes).len() as int) == hex(bytes),
        byte as int / 16 < 10 ==> hex(bytes.push(byte))[hex(bytes).len() as int] as int == 48 + byte
            as int / 16,
        byte as int / 16 >= 10 ==> hex(bytes.push(byte))[hex(bytes).len() as int] as int == 87
            + byte as int / 16,
        byte as int % 16 < 10 ==> hex(bytes.push(byte)).last() as int == 48 + byte as int % 16,
        byte as int % 16 >= 10 ==> hex(bytes.push(byte)).last() as int == 87 + byte as int % 16,
{
    assert(bytes.push(byte).drop_last() =~= bytes);
    assert(hex(bytes.push(byte)).take(hex(bytes).len() as int) =~= hex(bytes));
}

// ---- profiles -----------------------------------------------------------------------

/// A profile's directories are those that the platform names, the state with the local data
/// where the platform has no place for it; where it names none, they stand below the
/// fallback.
pub proof fn a_profile_stands_where_the_platform_says(
    name: &str,
    config: Vec<u8>,
    state: Vec<u8>,
    data_local: Vec<u8>,
    cache: Vec<u8>,
    fallback: FilePath,
    full: AppDirs,
    without: AppDirs,
    none: AppDirs,
)
    requires
        call_ensures(
            AppDirs::from_project,
            (
                name,
                Some(ProjectPaths { config, state: Some(state), data_local, cache }),
                &fallback,
            ),
            full,
        ),
        call_ensures(
            AppDirs::from_project,
            (name, Some(ProjectPaths { config, state: None, data_local, cache }), &fallback),
            without,
        ),
        call_ensures(AppDirs::from_project, (name, None, &fallback), none),
    ensures
        full.config.raw@ == config@ && full.state.raw@ == state@ && full.cache.raw@ == cache@,
        without.state.raw@ == data_local@ && without.config.raw@ == config@,
        none.config@ == child(fallback@, name@ + "-config"@),
        none.state@ == child(fallback@, name@ + "-state"@),
        none.cache@ == child(fallback@, name@ + "-cache"@),
{
}

/// A launch runs on the new profile, but for an updater's trial launch while only the old
/// one exists.
pub proof fn a_launch_runs_on_the_new_profile(
    current: AppDirs,
    legacy: AppDirs,
    existing: Existing,
    update_trial: bool,
    r: AppDirs,
)
    requires
        call_ensures(AppDirs::select_profile, (current, legacy, existing, update_trial), r),
    ensures
        ({
            let trial = update_trial && !existing.current_config && !existing.current_state && (
            existing.legacy_config || existing.legacy_state);
            &&& trial ==> r == legacy && launch_name(update_trial, existing) == "fastpotify"@
            &&& !trial ==> r == current && launch_name(update_trial, existing) == "spotifast"@
        }),
{
}

/// A directory moves when it is there and nothing stands at its new place; what stands there
/// stays. What is no directory does not move, and that is an error, as is what cannot be
/// read.
pub proof fn a_directory_moves_to_a_free_place(
    source: Source,
    detail: String,
    moved: Result<bool, MigrationError>,
    kept: Result<bool, MigrationError>,
)
    requires
        call_ensures(migrate_directory, (Destination::Absent, Source::Directory), moved),
        call_ensures(migrate_directory, (Destination::Present, source), kept),
    ensures
        moved == Ok::<bool, MigrationError>(true),
        kept == Ok::<bool, MigrationError>(false),
        migration_step(Destination::Absent, Source::Directory) == moved,
        migration_step(Destination::Present, source) == kept,
        migration_step(Destination::Absent, Source::Absent) == Ok::<bool, MigrationError>(false),
        migration_step(Destination::Absent, Source::Other) == Err::<bool, MigrationError>(
            MigrationError::NotADirectory,
        ),
        migration_step(Destination::Absent, Source::Unreadable(detail)) == Err::<
            bool,
            MigrationError,
        >(MigrationError::Io(detail)),
        migration_step(Destination::Unreadable(detail), source) == Err::<bool, MigrationError>(
            MigrationError::Io(detail),
        ),
{
}

/// All three directories of an old profile move to those of the new one.
pub proof fn a_profile_moves_as_a_whole(new: AppDirs, old: AppDirs, r: Vec<Move>)
    requires
        call_ensures(AppDirs::migrate_from, (&new, &old), r),
    ensures
        r@.len() == 3,
        r@[0].from@ == old.config@ && r@[0].to@ == new.config@,
        r@[1].from@ == old.state@ && r@[1].to@ == new.state@,
        r@[2].from@ == old.cache@ && r@[2].to@ == new.cache@,
{
}

/// The identity that credentials were stored under is written down in the old profile
/// before it moves, once, and is made of the old place of the state.
pub proof fn an_identity_is_written_down_once(
    old: AppDirs,
    facts: MarkerFacts,
    r: Option<Marker>,
)
    requires
        call_ensures(AppDirs::identity_marker, (&old, facts), r),
    ensures
        facts.old_state_is_dir && !facts.new_state_exists && !facts.marker_exists ==> (r
            matches Some(marker) && marker.temporary@ == child(
            old.state@,
            "credential-profile.tmp"@,
        ) && marker.target@ == child(old.state@, "credential-profile"@) && marker.text@ == hex(
            sha256_of(encode_utf8(lossy_text(old.state@.raw))),
        )),
        !facts.old_state_is_dir || facts.new_state_exists || facts.marker_exists ==> r is None,
{
}

} // verus!
