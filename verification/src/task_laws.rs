//! What the pieces of work outside come to, and what is kept of them.

use std::sync::Arc;

use vstd::prelude::*;

use crate::album_types::AlbumTypeRequest;
use crate::api::{ApiRequest, ApiResponse};
use crate::caches::{
    cached_answer, lyrics_file, lyrics_source, playlist_cache_path, releases_to_keep, source_mask,
    CachedAnswer, CachedNewReleases, CachedPlaylist, LyricsSource, NewReleasesCacheRequest,
    PlaylistCache,
};
use crate::credentials::{Lease, StoredToken};
use crate::error::{ApiError, ApiSource};
use crate::events::{
    connect_error, friendly_connect_error, AuthStatus, Command, Effect, Event, LocalPlayback,
    Message, Notice, PlaybackCredentials, ReadyEngine, StorageError, Ticket,
};
use crate::file_path::{child, FilePath};
use crate::gateway::AccountId;
use crate::models::{Album, Image, PlaylistItem, User};
use crate::paths::{account_name, AppDirs};
use crate::releases::ReleaseArtistSource;
use crate::tasks::{
    album_type_answered, connection_ended, cover_image, engine_said, network_at_start,
    playback_grant_answered, proxy_password_revoked, proxy_password_written, receiver_credentials,
    sign_in_answered, storage_notice, Connection, EngineEvent, Network, Report, Verdict,
    Verification,
};
use crate::text::{decimal, has_part, lowercase};

verus! {

// ---- finding out whose account a grant is -------------------------------------------

/// The account that Spotify names is reported, for the grant that was asked about. A
/// refusal is reported while the grant counts; anything else is asked again, after two
/// seconds at first, twice as long each time, and a minute at most.
pub proof fn an_account_is_found_out(
    verification: Verification,
    user: User,
    error: ApiError,
    current: bool,
)
    ensures
        verification.verdict(Ok(user), current) == Verdict::Report(
            Command::WebVerified {
                source: verification.source,
                token: verification.token,
                user,
                lease: verification.lease,
                attempt: verification.attempt,
            },
        ),
        ({
            let refused = error is SignInExpired || (error matches ApiError::Status {
                status,
                message: _,
            } && status < 500);
            &&& refused && current ==> verification.verdict(Err(error), current)
                == Verdict::Report(
                Command::WebVerificationFailed {
                    source: verification.source,
                    lease: verification.lease,
                    attempt: verification.attempt,
                    error,
                },
            )
            &&& refused && !current ==> verification.verdict(Err(error), current)
                == Verdict::Report(
                Command::SignInEnded {
                    source: verification.source,
                    attempt: verification.attempt,
                },
            )
            &&& !refused ==> verification.verdict(Err(error), current) == (Verdict::Wait {
                seconds: verification.wait_s,
            })
        }),
        verification.wait_s <= 30 ==> Verification::longer(verification.wait_s)
            == verification.wait_s * 2,
        30 < verification.wait_s <= 60 ==> Verification::longer(verification.wait_s) == 60,
{
}

// ---- the browser --------------------------------------------------------------------

/// A grant that the browser brings is handed on, as it is. Without one the sign-in has
/// ended: the listener is told why, unless they gave up, and that nobody is signed in.
pub proof fn the_browser_answers_a_sign_in(
    source: ApiSource,
    token: StoredToken,
    error: String,
    lease: Lease,
    attempt: u64,
    current: bool,
    granted: Report,
    refused: Report,
)
    requires
        call_ensures(sign_in_answered, (source, Ok(token), lease, attempt, current), granted),
        call_ensures(sign_in_answered, (source, Err(error), lease, attempt, current), refused),
    ensures
        granted.command == Some(Command::WebSignedIn { source, token, lease, attempt }),
        granted.notices@.len() == 0,
        refused.command == Some(Command::SignInEnded { source, attempt }),
        !current ==> refused.notices@.len() == 0,
        current && !has_part(error@, "cancelled"@) ==> refused.notices@.len() > 0
            && refused.notices@.last() == Notice::Error(Message::SignInFailed(error)),
        current && source == ApiSource::Shared ==> refused.notices@.len() > 0
            && refused.notices@[0] == Notice::Event(Event::Auth(AuthStatus::SignedOut)),
        current && has_part(error@, "cancelled"@) && source == ApiSource::Personal
            ==> refused.notices@.len() == 0,
{
}

/// A playback token that the browser brings is handed on, as it is. Without one the
/// listener is told why, or, when they gave up, that playback is not set up.
pub proof fn the_browser_answers_for_playback(
    access_token: String,
    error: String,
    lease: Lease,
    attempt: u64,
    current: bool,
    granted: Report,
    refused: Report,
)
    requires
        call_ensures(
            playback_grant_answered,
            (Ok(access_token), lease, attempt, current),
            granted,
        ),
        call_ensures(playback_grant_answered, (Err(error), lease, attempt, current), refused),
    ensures
        granted.command == Some(Command::PlaybackAuthorized { access_token, lease, attempt }),
        granted.notices@.len() == 0,
        refused.command == Some(Command::PlaybackAuthEnded { attempt }),
        refused.notices@ == if !current {
            Seq::<Notice>::empty()
        } else if has_part(error@, "cancelled"@) {
            seq![Notice::Event(Event::Playback(LocalPlayback::Unavailable))]
        } else {
            seq![Notice::PlaybackFailed(Message::Plain(error))]
        },
{
}

// ---- the engine ---------------------------------------------------------------------

/// An engine that connected is reported, and so is why none did, each to the session that
/// asked for it.
pub proof fn a_connection_is_reported(
    ready: ReadyEngine,
    error: String,
    session_generation: u64,
    lease: Lease,
    connected: Command,
    failed: Command,
    closed: Command,
    late: Command,
)
    requires
        call_ensures(
            connection_ended,
            (Connection::Ready(ready), session_generation, lease),
            connected,
        ),
        call_ensures(
            connection_ended,
            (Connection::Failed(error), session_generation, lease),
            failed,
        ),
        call_ensures(
            connection_ended,
            (Connection::NoCache(error), session_generation, lease),
            closed,
        ),
        call_ensures(
            connection_ended,
            (Connection::TimedOut, session_generation, lease),
            late,
        ),
    ensures
        connected == (Command::EngineConnected {
            session_generation,
            engine: Some(ready),
            error: None,
            lease,
        }),
        failed == (Command::EngineConnected {
            session_generation,
            engine: None,
            error: Some(connect_error(error)),
            lease,
        }),
        closed == (Command::EngineConnected {
            session_generation,
            engine: None,
            error: Some(Message::Plain(error)),
            lease,
        }),
        late == (Command::EngineConnected {
            session_generation,
            engine: None,
            error: Some(Message::ConnectTimedOut),
            lease,
        }),
{
}

/// What an error of the engine means is said in words for the listener: a sign-in that is
/// no longer good, a plan without playback, a network that is not there, and else the
/// error itself.
pub proof fn an_engines_error_is_put_into_words(error: String, told: Message)
    requires
        call_ensures(friendly_connect_error, (error,), told),
    ensures
        ({
            let lower = lowercase(error@);
            let bad = has_part(lower, "badcredentials"@) || has_part(lower, "bad credentials"@);
            let offline = has_part(lower, "dns"@) || has_part(lower, "connect"@) || has_part(
                lower,
                "resolve"@,
            );
            &&& bad ==> told == Message::RejectedSignIn
            &&& !bad && has_part(lower, "premium"@) ==> told == Message::PremiumNeeded
            &&& !bad && !has_part(lower, "premium"@) && offline ==> told == Message::Unreachable(
                error,
            )
            &&& !bad && !has_part(lower, "premium"@) && !offline ==> told == Message::Plain(error)
            &&& told == connect_error(error)
        }),
{
}

/// What an engine says is passed on while it counts: its state to the listener, and the end
/// of its session to be connected again.
pub proof fn an_engine_is_heard(state: Ticket, current: bool, said: Report, ended: Report)
    requires
        call_ensures(engine_said, (EngineEvent::State(state), current), said),
        call_ensures(engine_said, (EngineEvent::SessionEnded, current), ended),
    ensures
        current ==> said.notices@ == seq![Notice::Event(Event::Local(state))] && ended.command
            == Some(Command::Reconnect),
        !current ==> said.notices@.len() == 0 && ended.command is None,
        said.command is None,
        ended.notices@.len() == 0,
{
}

/// What is found out about an album is reported for it; what does not come in time is
/// reported as an error.
pub proof fn an_album_type_is_reported(
    request: AlbumTypeRequest,
    result: Result<bool, String>,
    came: Command,
    late: Command,
)
    requires
        call_ensures(album_type_answered, (request, Some(result)), came),
        call_ensures(album_type_answered, (request, None), late),
    ensures
        came == (Command::AlbumTypeResolved { request, result }),
        late matches Command::AlbumTypeResolved { request: asked, result: told } && asked == request
            && told is Err,
{
}

/// A receiver gets the credentials that are held, while they count.
pub proof fn a_receiver_is_handed_what_is_held(
    held: Option<Arc<PlaybackCredentials>>,
    current: bool,
    r: Result<Arc<PlaybackCredentials>, String>,
)
    requires
        call_ensures(receiver_credentials, (held, current), r),
    ensures
        current ==> (held matches Some(credentials) ==> r == Ok::<
            Arc<PlaybackCredentials>,
            String,
        >(credentials)),
        !current || held is None ==> r is Err,
{
}

// ---- stored credentials -------------------------------------------------------------

/// Trouble with the store is shown, unless the credential was replaced meanwhile. That a
/// password was stored is shown, too, and one that was withdrawn is deleted.
pub proof fn trouble_with_the_store_is_shown(
    current: bool,
    lease: Lease,
    saving: bool,
    error: StorageError,
    failed: Option<Notice>,
    stale: Option<Notice>,
    stored: Option<Event>,
    unstored: Option<Event>,
    revoked: Vec<Effect>,
    unrevoked: Vec<Effect>,
)
    requires
        call_ensures(storage_notice, (StorageError::Failed, current), failed),
        call_ensures(storage_notice, (StorageError::Stale, current), stale),
        call_ensures(proxy_password_written, (Ok(()), saving, current), stored),
        call_ensures(
            proxy_password_written,
            (Err(StorageError::Failed), saving, current),
            unstored,
        ),
        call_ensures(proxy_password_revoked, (Ok(()), lease), revoked),
        call_ensures(proxy_password_revoked, (Err(error), lease), unrevoked),
    ensures
        failed == if current {
            Some(Notice::Error(Message::Storage(StorageError::Failed)))
        } else {
            None
        },
        stale is None,
        stored == if current && saving {
            Some(Event::ProxyPasswordStored)
        } else {
            None
        },
        unstored == if current {
            Some(Event::ProxyStorageFailed(StorageError::Failed))
        } else {
            None
        },
        revoked@ == seq![
            Effect::Emit(Notice::Event(Event::ProxyPasswordStored)),
            Effect::DeleteProxyPassword { lease },
        ],
        unrevoked@ == seq![Effect::Emit(Notice::Event(Event::ProxyStorageFailed(error)))],
{
}

/// The network can be used at the start with settings that make a proxy, unless its
/// password is still to be read.
pub proof fn the_network_is_used_when_it_can_be(
    url: Option<String>,
    error: String,
    good: Network,
    bad: Network,
    early: Network,
)
    requires
        call_ensures(network_at_start, (false, Ok(url)), good),
        call_ensures(network_at_start, (false, Err(error)), bad),
        call_ensures(network_at_start, (true, Ok(url)), early),
    ensures
        good.blocked is None,
        good.notice is None,
        bad.blocked == Some(error),
        bad.notice == Some(Notice::Error(Message::Network(error))),
        early.blocked is Some,
        early.notice is None,
{
}

/// A cover is compared with the widest image that a playlist has.
pub proof fn the_widest_image_is_compared(
    images: Vec<Image>,
    i: int,
    width: u32,
    r: Result<usize, String>,
)
    requires
        call_ensures(cover_image, (&images,), r),
        0 <= i < images@.len(),
        images@[i].width == Some(width),
    ensures
        r matches Ok(best) && best < images@.len() && (width > 0 ==> (images@[best as int].width
            matches Some(most) && most >= width)),
{
    assert(crate::models::image_width(images@[i]) == width);
}

// ---- what is kept -------------------------------------------------------------------

/// A kept scan is shown while it is at most a week old, and alone when it is at most half
/// an hour old and no new one was asked for. One from the future is not shown.
pub proof fn a_kept_scan_is_shown_for_a_week(
    force_refresh: bool,
    cached: CachedNewReleases,
    now: u64,
    r: Option<CachedAnswer>,
    none: Option<CachedAnswer>,
)
    requires
        call_ensures(cached_answer, (force_refresh, Some(cached), now), r),
        call_ensures(cached_answer, (force_refresh, None, now), none),
    ensures
        cached.saved_at <= now && now - cached.saved_at <= 7 * 24 * 60 * 60 ==> (r matches Some(
            answer,
        ) && answer.releases == cached.releases && answer.refreshing == (force_refresh || now
            - cached.saved_at > 30 * 60)),
        cached.saved_at > now || now - cached.saved_at > 7 * 24 * 60 * 60 ==> r is None,
        none is None,
{
}

/// The releases of a scan that worked are kept, and nothing else is.
pub proof fn a_finished_scan_is_kept(
    generation: u64,
    releases: Vec<Album>,
    error: ApiError,
    other: ApiResponse,
    kept: Option<&Vec<Album>>,
    failed: Option<&Vec<Album>>,
    rest: Option<&Vec<Album>>,
)
    requires
        call_ensures(
            releases_to_keep,
            (&ApiResponse::NewReleases { generation, result: Ok(releases) },),
            kept,
        ),
        call_ensures(
            releases_to_keep,
            (&ApiResponse::NewReleases { generation, result: Err(error) },),
            failed,
        ),
        call_ensures(releases_to_keep, (&other,), rest),
    ensures
        kept matches Some(list) && *list == releases,
        failed is None,
        !(other is NewReleases) ==> rest is None,
{
}

/// A scan is kept for the verified account, in a file of its own for every choice that it
/// was made with.
pub proof fn a_scan_is_kept_for_its_account(
    dirs: AppDirs,
    account: AccountId,
    days: u16,
    artist_sources: Vec<ReleaseArtistSource>,
    minimum_liked_tracks: u16,
    force_refresh: bool,
    generation: u64,
    r: Option<NewReleasesCacheRequest>,
    nobody: Option<NewReleasesCacheRequest>,
)
    requires
        call_ensures(
            NewReleasesCacheRequest::for_request,
            (
                &dirs,
                Some(&account),
                &ApiRequest::NewReleases {
                    days,
                    artist_sources,
                    minimum_liked_tracks,
                    force_refresh,
                    generation,
                },
            ),
            r,
        ),
        call_ensures(
            NewReleasesCacheRequest::for_request,
            (
                &dirs,
                None,
                &ApiRequest::NewReleases {
                    days,
                    artist_sources,
                    minimum_liked_tracks,
                    force_refresh,
                    generation,
                },
            ),
            nobody,
        ),
    ensures
        nobody is None,
        r matches Some(cache) && cache.account_id == account.id && cache.generation == generation
            && cache.force_refresh == force_refresh && cache.path@ == child(
            child(child(dirs.cache@, "new-releases"@), account_name(account.id@)),
            "days-"@ + decimal(days as nat) + "-sources-"@ + decimal(source_mask(artist_sources@))
                + "-liked-"@ + decimal(minimum_liked_tracks as nat) + ".json"@,
        ),
        source_mask(artist_sources@) == (if artist_sources@.contains(
            ReleaseArtistSource::FollowedArtists,
        ) {
            1nat
        } else {
            0
        }) + (if artist_sources@.contains(ReleaseArtistSource::SavedAlbums) {
            2nat
        } else {
            0
        }) + (if artist_sources@.contains(ReleaseArtistSource::LikedSongs) {
            4nat
        } else {
            0
        }),
{
}

/// Rows that were kept are given back as they were, with their snapshot and where they go
/// on. Rows that do not agree with their own count are not.
pub proof fn kept_rows_come_back(
    snapshot: String,
    items: Vec<PlaylistItem>,
    total: u32,
    next_offset: Option<u32>,
    kept: CachedPlaylist,
    r: Option<PlaylistCache>,
)
    requires
        call_ensures(CachedPlaylist::checkpoint, (snapshot, items, total, next_offset), kept),
        call_ensures(CachedPlaylist::checked, (kept,), r),
    ensures
        items@.len() <= total && (next_offset matches Some(offset) ==> offset <= total) ==> (r
            matches Some(cache) && cache.snapshot == snapshot && cache.items == items
            && cache.total == total && cache.next_offset == next_offset),
        items@.len() > total ==> r is None,
        next_offset matches Some(offset) ==> (offset > total ==> r is None),
{
}

/// The lyrics of a song are kept under its id; those of anything else are not.
pub proof fn lyrics_are_kept_by_song(
    id: Seq<char>,
    uri: &str,
    r: Option<String>,
    is_track: bool,
    session: bool,
    kept: LyricsSource,
    missing: LyricsSource,
    unknown: LyricsSource,
)
    requires
        call_ensures(lyrics_file, (uri,), r),
        call_ensures(lyrics_source, (is_track, Some(true), session), kept),
        call_ensures(lyrics_source, (is_track, Some(false), session), missing),
        call_ensures(lyrics_source, (is_track, None, session), unknown),
    ensures
        uri@ == "spotify:track:"@ + id ==> (r matches Some(name) && name@ == "spotify-"@ + id
            + ".json"@),
        (forall|rest: Seq<char>| uri@ != #[trigger] ("spotify:track:"@ + rest)) ==> r is None,
        kept == if is_track {
            LyricsSource::Kept
        } else {
            LyricsSource::Library
        },
        missing == LyricsSource::Library,
        unknown == if is_track && session {
            LyricsSource::Session
        } else {
            LyricsSource::Library
        },
{
    let prefix = "spotify:track:"@;
    if uri@ == prefix + id {
        assert(uri@.take(prefix.len() as int) =~= prefix);
        assert(uri@.skip(prefix.len() as int) =~= id);
    }
    if r is Some {
        assert(uri@ =~= prefix + uri@.skip(prefix.len() as int));
    }
}

/// Where the rows of a playlist are kept: below the account's own directory, under the
/// playlist's id.
pub proof fn rows_are_kept_below_their_account(
    dirs: AppDirs,
    account_id: &str,
    id: &str,
    r: FilePath,
)
    requires
        call_ensures(playlist_cache_path, (&dirs, account_id, id), r),
    ensures
        r@ == child(child(child(dirs.cache@, "playlists"@), account_id@), id@ + ".json"@),
{
}

// ---- what is told -------------------------------------------------------------------

/// What the listener is told, word for word.
pub proof fn the_listener_is_told_in_words(text: String, error: ApiError)
    ensures
        Message::Plain(text).words() == text@,
        Message::ThemesFolder(text).words() == "Couldn't open the themes folder: "@ + text@,
        Message::Network(text).words() == "Network configuration failed: "@ + text@,
        Message::PlaybackError(text).words() == "Playback error: "@ + text@,
        Message::NoLocalPlayback.words() == "Local playback isn't set up on this computer yet"@,
        Message::SignInExpired.words() == "Your Spotify sign-in expired. Please sign in again."@,
        Message::PermissionsChanged.words() == "Spotify permissions changed. Sign in again."@,
        Message::SharedSignIn(error).words() == "Shared Spotify sign-in failed: "@ + error.text(),
        Message::PersonalSignIn(error).words() == "Personal app authorization failed: "@
            + error.text(),
        Message::FinishSigningIn.words()
            == "Finish signing in to Spotify before enabling playback."@,
        Message::StoredForAnother.words()
            == "Stored playback belongs to another Spotify account. Enable playback again."@,
        Message::KeepsDropping.words()
            == "Local playback keeps dropping. Re-enable it from Settings."@,
        Message::PremiumNeeded.words() == "Local playback needs Spotify Premium."@,
        Message::PlaybackUnavailable.words() == "Local playback is unavailable"@,
        Message::SignInFailed(text).words() == "Sign-in failed: "@ + text@,
        Message::ConnectTimedOut.words() == "Connecting to Spotify timed out"@,
        Message::RejectedSignIn.words()
            == "Spotify rejected the saved sign-in. Please sign in again."@,
        Message::Unreachable(text).words() == "Couldn't reach Spotify: "@ + text@,
        ApiError::NotSignedIn.text() == "not signed in"@,
        ApiError::RateLimited.text()
            == "Spotify is rate limiting requests; try again in a moment"@,
        ApiError::Network(text).text() == "network error: "@ + text@,
        ApiError::Decode(text).text() == "unexpected response from Spotify: "@ + text@,
        error matches ApiError::Status { status, message } ==> error.text() == message@
            && error.status_code() == Some(status),
        !(error is Status) ==> error.status_code() is None,
        error matches ApiError::SignInExpired { api_source } ==> error.expired_source() == Some(
            api_source,
        ),
        !(error is SignInExpired) ==> error.expired_source() is None,
{
}

/// A notice is told as what it is, with its words.
pub proof fn a_notice_is_told_as_what_it_is(message: Message, told: Event, event: Event)
    ensures
        Notice::Error(message).told_by(event) == (event matches Event::Error(text) && text@
            == message.words()),
        Notice::AuthFailed(message).told_by(event) == (event matches Event::Auth(
            AuthStatus::Failed(text),
        ) && text@ == message.words()),
        Notice::PlaybackFailed(message).told_by(event) == (event matches Event::Playback(
            LocalPlayback::Failed(text),
        ) && text@ == message.words()),
        Notice::Event(told).told_by(event) == (event == told),
{
}

} // verus!
