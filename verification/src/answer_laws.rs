//! What each request is answered: the results that came, with what tells whose answer
//! they are.

use vstd::prelude::*;

use crate::api::{ApiRequest, ApiResponse, Cover, RecentsFor, RemoteAction};
use crate::error::{ApiError, ApiResult};
use crate::exchange::{answers, expired_source, failed_reply, refused, respond, Reply};
use crate::gateway::AccountId;
use crate::models::{
    Album, Artist, CursorPage, Device, Episode, Page, PlayHistory, PlayableItem, PlaybackState,
    Playlist, PlaylistItem, Queue, SavedAlbum, SavedEpisode, SavedShow, SavedTrack, SearchResults,
    Show, Track, User,
};
use crate::releases::ReleaseArtistSource;
use crate::request::PlayRequest;

verus! {

/// What is known of the player reaches who asked for it, as it came.
pub proof fn answers_about_the_player(
    seq: u64,
    who: RecentsFor,
    generation: u64,
    before: Option<String>,
    limit: u32,
    action: RemoteAction,
    device_id: Option<String>,
    play: Option<PlayRequest>,
    position_ms: u32,
    percent: u8,
    flag: bool,
    repeat: String,
    starts: PlayRequest,
    device: String,
    playing: bool,
    uri: String,
    label: String,
    devices_came: ApiResult<Vec<Device>>,
    playback_came: ApiResult<Option<PlaybackState>>,
    queue_came: ApiResult<Queue>,
    history_came: ApiResult<CursorPage<PlayHistory>>,
    done_came: ApiResult<()>,
    account: Option<AccountId>,
    response: ApiResponse,
)
    ensures
        answers(
            ApiRequest::Devices,
            Reply::Devices(devices_came),
            account,
            response,
        ) == (response == ApiResponse::Devices(devices_came)),
        answers(
            ApiRequest::PlaybackState { seq },
            Reply::Playback(playback_came),
            account,
            response,
        ) == (response == (ApiResponse::PlaybackState { seq, result: playback_came })),
        answers(
            ApiRequest::Queue { seq },
            Reply::Queue(queue_came),
            account,
            response,
        ) == (response == (ApiResponse::Queue { seq, result: queue_came })),
        answers(
            ApiRequest::RecentlyPlayed { who, generation, before, limit },
            Reply::History(history_came),
            account,
            response,
        ) == (
            response == (
                ApiResponse::RecentlyPlayed { who, generation, limit, result: history_came }
            )
        ),
        answers(
            ApiRequest::Remote { action, device_id, play, position_ms, percent, flag, repeat },
            Reply::Done(done_came),
            account,
            response,
        ) == (response == (ApiResponse::Remote { action, result: done_came })),
        answers(
            ApiRequest::ShufflePlay { device_id, play: starts },
            Reply::Done(done_came),
            account,
            response,
        ) == (response == (ApiResponse::Remote { action: RemoteAction::Play, result: done_came })),
        answers(
            ApiRequest::Transfer { device_id: device, play: playing },
            Reply::Done(done_came),
            account,
            response,
        ) == (response == (ApiResponse::Transferred { device_id: device, result: done_came })),
        answers(
            ApiRequest::AddToQueue { uri, device_id, label },
            Reply::Done(done_came),
            account,
            response,
        ) == (response == (ApiResponse::QueueAdded { label, result: done_came })),
{
}

/// What is in the library, and what was saved or removed, reaches who asked for it,
/// as it came; liked songs with the account that they are of.
pub proof fn answers_about_the_library(
    offset: u32,
    generation: u64,
    after: Option<String>,
    uris: Vec<String>,
    saved: bool,
    id: String,
    follow: bool,
    saved_tracks_came: ApiResult<Page<SavedTrack>>,
    saved_albums_came: ApiResult<Page<SavedAlbum>>,
    followed_came: ApiResult<CursorPage<Artist>>,
    saved_shows_came: ApiResult<Page<SavedShow>>,
    saved_episodes_came: ApiResult<Page<SavedEpisode>>,
    done_came: ApiResult<()>,
    flags_came: ApiResult<Vec<bool>>,
    account: Option<AccountId>,
    response: ApiResponse,
)
    ensures
        answers(
            ApiRequest::SavedTracks { offset, generation },
            Reply::SavedTracks(saved_tracks_came),
            account,
            response,
        ) == (
            response == (
                ApiResponse::SavedTracks {
                    offset,
                    generation,
                    account_id: (match account { Some(account) => Some(account.id), None => None }),
                    result: saved_tracks_came,
                }
            )
        ),
        answers(
            ApiRequest::SavedAlbums { offset },
            Reply::SavedAlbums(saved_albums_came),
            account,
            response,
        ) == (response == (ApiResponse::SavedAlbums { offset, result: saved_albums_came })),
        answers(
            ApiRequest::FollowedArtists { after },
            Reply::Followed(followed_came),
            account,
            response,
        ) == (response == (ApiResponse::FollowedArtists { after, result: followed_came })),
        answers(
            ApiRequest::SavedShows { offset },
            Reply::SavedShows(saved_shows_came),
            account,
            response,
        ) == (response == (ApiResponse::SavedShows { offset, result: saved_shows_came })),
        answers(
            ApiRequest::SavedEpisodes { offset },
            Reply::SavedEpisodes(saved_episodes_came),
            account,
            response,
        ) == (response == (ApiResponse::SavedEpisodes { offset, result: saved_episodes_came })),
        answers(
            ApiRequest::SetSaved { uris, saved },
            Reply::Done(done_came),
            account,
            response,
        ) == (response == (ApiResponse::SavedChanged { uris, saved, result: done_came })),
        answers(
            ApiRequest::Contains { uris },
            Reply::Flags(flags_came),
            account,
            response,
        ) == (response == (ApiResponse::Contains { uris, result: flags_came })),
        answers(
            ApiRequest::FollowPlaylist { id, follow },
            Reply::Done(done_came),
            account,
            response,
        ) == (
            response == (
                ApiResponse::PlaylistFollowChanged { id, followed: follow, result: done_came }
            )
        ),
{
}

/// What is known of playlists, and what came of making and changing them, reaches who
/// asked for it, as it came.
pub proof fn answers_about_playlists(
    offset: u32,
    id: String,
    generation: u64,
    name: String,
    public: bool,
    description: String,
    request: u64,
    previous_urls: Vec<String>,
    cover: Cover,
    new_name: Option<String>,
    new_description: Option<String>,
    new_public: Option<bool>,
    playlist_id: String,
    playlist_name: String,
    items: Vec<PlayableItem>,
    position: Option<u32>,
    playlists_came: ApiResult<Page<Playlist>>,
    playlist_came: ApiResult<Playlist>,
    rows_came: ApiResult<Page<PlaylistItem>>,
    done_came: ApiResult<()>,
    duplicates_came: ApiResult<Vec<String>>,
    account: Option<AccountId>,
    response: ApiResponse,
)
    ensures
        answers(
            ApiRequest::MyPlaylists { offset },
            Reply::Playlists(playlists_came),
            account,
            response,
        ) == (response == (ApiResponse::MyPlaylists { offset, result: playlists_came })),
        answers(
            ApiRequest::Playlist { id, generation },
            Reply::Playlist(playlist_came),
            account,
            response,
        ) == (response == (ApiResponse::Playlist { id, generation, result: playlist_came })),
        answers(
            ApiRequest::PlaylistItems { id, offset, generation },
            Reply::Rows(rows_came),
            account,
            response,
        ) == (
            response == (ApiResponse::PlaylistItems { id, offset, generation, result: rows_came })
        ),
        answers(
            ApiRequest::PlaylistSample { id, offset, generation },
            Reply::Rows(rows_came),
            account,
            response,
        ) == (response == (ApiResponse::PlaylistSample { id, generation, result: rows_came })),
        answers(
            ApiRequest::CreatePlaylist { name, public, description },
            Reply::Playlist(playlist_came),
            account,
            response,
        ) == (response == ApiResponse::PlaylistCreated(playlist_came)),
        answers(
            ApiRequest::UploadPlaylistCover { id, request, previous_urls, cover },
            Reply::Done(done_came),
            account,
            response,
        ) == (
            response == (
                ApiResponse::PlaylistCoverUploaded {
                    id,
                    request,
                    previous_urls,
                    cover,
                    result: done_came,
                }
            )
        ),
        answers(
            ApiRequest::UpdatePlaylist {
                id,
                name: new_name,
                description: new_description,
                public: new_public,
            },
            Reply::Done(done_came),
            account,
            response,
        ) == (response == (ApiResponse::PlaylistUpdated { id, result: done_came })),
        answers(
            ApiRequest::CheckPlaylistDuplicates { playlist_id, playlist_name, items, position },
            Reply::Duplicates(duplicates_came),
            account,
            response,
        ) == (
            response == (
                ApiResponse::PlaylistDuplicatesChecked {
                    playlist_id,
                    playlist_name,
                    items,
                    position,
                    result: duplicates_came,
                }
            )
        ),
{
}

/// What is known of artists and albums reaches who asked for it, as it came.
pub proof fn answers_about_artists_and_albums(
    id: String,
    groups: String,
    offset: u32,
    generation: u64,
    request: u64,
    artist_came: ApiResult<Artist>,
    track_list_came: ApiResult<Vec<Track>>,
    albums_came: ApiResult<Page<Album>>,
    artist_list_came: ApiResult<Vec<Artist>>,
    album_came: ApiResult<Album>,
    tracks_came: ApiResult<Page<Track>>,
    account: Option<AccountId>,
    response: ApiResponse,
)
    ensures
        answers(
            ApiRequest::Artist { id },
            Reply::Artist(artist_came),
            account,
            response,
        ) == (response == (ApiResponse::Artist { id, result: artist_came })),
        answers(
            ApiRequest::ArtistTopTracks { id },
            Reply::TrackList(track_list_came),
            account,
            response,
        ) == (response == (ApiResponse::ArtistTopTracks { id, result: track_list_came })),
        answers(
            ApiRequest::ArtistAlbums { id, groups, offset },
            Reply::Albums(albums_came),
            account,
            response,
        ) == (response == (ApiResponse::ArtistAlbums { id, groups, offset, result: albums_came })),
        answers(
            ApiRequest::RelatedArtists { id },
            Reply::ArtistList(artist_list_came),
            account,
            response,
        ) == (response == (ApiResponse::RelatedArtists { id, result: artist_list_came })),
        answers(
            ApiRequest::Album { id },
            Reply::Album(album_came),
            account,
            response,
        ) == (response == (ApiResponse::Album { id, result: album_came })),
        answers(
            ApiRequest::AlbumTracks { id, offset, generation },
            Reply::Tracks(tracks_came),
            account,
            response,
        ) == (
            response == (ApiResponse::AlbumTracks { id, offset, generation, result: tracks_came })
        ),
        answers(
            ApiRequest::AlbumQueueTracks { id, offset, request },
            Reply::Tracks(tracks_came),
            account,
            response,
        ) == (response == (ApiResponse::AlbumQueueTracks { offset, request, result: tracks_came })),
{
}

/// What is known of shows, songs and episodes, and what a search found, reaches who
/// asked for it, as it came.
pub proof fn answers_about_shows_and_searches(
    id: String,
    offset: u32,
    query: String,
    serial: u64,
    show_came: ApiResult<Show>,
    episodes_came: ApiResult<Page<Episode>>,
    track_came: ApiResult<Track>,
    episode_came: ApiResult<Episode>,
    search_came: ApiResult<SearchResults>,
    account: Option<AccountId>,
    response: ApiResponse,
)
    ensures
        answers(
            ApiRequest::Show { id },
            Reply::Show(show_came),
            account,
            response,
        ) == (response == (ApiResponse::Show { id, result: show_came })),
        answers(
            ApiRequest::ShowEpisodes { id, offset },
            Reply::Episodes(episodes_came),
            account,
            response,
        ) == (response == (ApiResponse::ShowEpisodes { id, offset, result: episodes_came })),
        answers(
            ApiRequest::Track { id },
            Reply::Track(track_came),
            account,
            response,
        ) == (response == (ApiResponse::Track { id, result: track_came })),
        answers(
            ApiRequest::Episode { id },
            Reply::Episode(episode_came),
            account,
            response,
        ) == (response == (ApiResponse::Episode { id, result: episode_came })),
        answers(
            ApiRequest::Search { query, serial },
            Reply::Search(search_came),
            account,
            response,
        ) == (response == (ApiResponse::Search { query, serial, result: search_came })),
        answers(
            ApiRequest::SearchCatalogue { query, serial },
            Reply::Search(search_came),
            account,
            response,
        ) == (response == (ApiResponse::Search { query, serial, result: search_came })),
{
}

/// What is known of the listener, what they like, and what is new for them reaches who
/// asked for it, as it came.
pub proof fn answers_about_the_listener(
    days: u16,
    artist_sources: Vec<ReleaseArtistSource>,
    minimum_liked_tracks: u16,
    force_refresh: bool,
    generation: u64,
    offset: u32,
    full: bool,
    seed_tracks: Vec<String>,
    seed_artists: Vec<String>,
    user_came: ApiResult<User>,
    releases_came: ApiResult<Vec<Album>>,
    tracks_came: ApiResult<Page<Track>>,
    track_list_came: ApiResult<Vec<Track>>,
    account: Option<AccountId>,
    response: ApiResponse,
)
    ensures
        answers(
            ApiRequest::Me,
            Reply::User(user_came),
            account,
            response,
        ) == (response == ApiResponse::Me(user_came)),
        answers(
            ApiRequest::NewReleases {
                days,
                artist_sources,
                minimum_liked_tracks,
                force_refresh,
                generation,
            },
            Reply::Releases(releases_came),
            account,
            response,
        ) == (response == (ApiResponse::NewReleases { generation, result: releases_came })),
        answers(
            ApiRequest::TopTracks { offset, full, generation },
            Reply::Tracks(tracks_came),
            account,
            response,
        ) == (
            response == (ApiResponse::TopTracks { offset, full, generation, result: tracks_came })
        ),
        answers(
            ApiRequest::Recommendations { seed_tracks, seed_artists, generation },
            Reply::TrackList(track_list_came),
            account,
            response,
        ) == (response == (ApiResponse::Recommendations { generation, result: track_list_came })),
{
}

/// The answer to an edit of a playlist names the playlist and its new state. Only
/// adding and removing songs say what they did, adding with the playlist's name.
pub proof fn edits_are_answered_for_their_playlist(
    playlist_id: String,
    playlist_name: String,
    uris: Vec<String>,
    position: Option<u32>,
    snapshot_id: Option<String>,
    range_start: u32,
    insert_before: u32,
    came: ApiResult<Option<String>>,
    account: Option<AccountId>,
    response: ApiResponse,
)
    ensures
        answers(
            ApiRequest::AddToPlaylist { playlist_id, playlist_name, uris, position },
            Reply::Snapshot(came),
            account,
            response,
        ) == (response matches ApiResponse::PlaylistItemsChanged { id, message, result } && id
            == playlist_id && result == came && message@ == "Added to "@ + playlist_name@),
        answers(
            ApiRequest::RemoveFromPlaylist { playlist_id, uris, snapshot_id },
            Reply::Snapshot(came),
            account,
            response,
        ) == (response matches ApiResponse::PlaylistItemsChanged { id, message, result } && id
            == playlist_id && result == came && message@ == "Removed from playlist"@),
        answers(
            ApiRequest::ReorderPlaylist { playlist_id, range_start, insert_before, snapshot_id },
            Reply::Snapshot(came),
            account,
            response,
        ) == (response matches ApiResponse::PlaylistItemsChanged { id, message, result } && id
            == playlist_id && result == came && message@.len() == 0),
{
    if response is PlaylistItemsChanged {
        let message = response->PlaylistItemsChanged_message@;
        assert(message.len() == 0 ==> message =~= Seq::<char>::empty());
    }
}

/// Where a list of things is asked for, the things of the page that came are the
/// answer, and a failure is passed on.
pub proof fn lists_are_taken_from_their_pages(
    generation: u64,
    term: String,
    query: String,
    serial: u64,
    artists: ApiResult<Page<Artist>>,
    found: ApiResult<SearchResults>,
    account: Option<AccountId>,
    response: ApiResponse,
)
    ensures
        answers(
            ApiRequest::TopArtists { generation },
            Reply::Artists(artists),
            account,
            response,
        ) == (response == (ApiResponse::TopArtists {
            generation,
            result: match artists {
                Ok(page) => Ok(page.items),
                Err(error) => Err(error),
            },
        })),
        answers(
            ApiRequest::Discover { term, generation },
            Reply::Search(found),
            account,
            response,
        ) == (response matches ApiResponse::Discover { term: t, generation: g, result } && t == term
            && g == generation && (match (found, result) {
            (Ok(results), Ok(list)) => list@ == (match results.playlists {
                Some(page) => page.items@,
                None => Seq::empty(),
            }),
            (Err(error), Err(told)) => error == told,
            _ => false,
        })),
        answers(
            ApiRequest::SearchPlaylists { query, serial },
            Reply::Search(found),
            account,
            response,
        ) == (response matches ApiResponse::SearchPlaylists { query: q, serial: s, result } && q
            == query && s == serial && (match (found, result) {
            (Ok(results), Ok(shown)) => match results.playlists {
                Some(page) => shown == page,
                None => shown.items@.len() == 0 && shown.total == 0 && shown.limit == 0
                    && shown.offset == 0 && shown.next is None,
            },
            (Err(error), Err(told)) => error == told,
            _ => false,
        })),
{
}

/// How many songs were appended to the queue is the answer to appending many.
pub proof fn appending_many_answers_how_many(
    request: u64,
    uris: Vec<String>,
    device_id: Option<String>,
    added: usize,
    came: ApiResult<()>,
    account: Option<AccountId>,
    response: ApiResponse,
)
    ensures
        answers(
            ApiRequest::AddManyToQueue { request, uris, device_id },
            Reply::Appended(added, came),
            account,
            response,
        ) == (response == (ApiResponse::QueueBatchAdded { request, added, result: came })),
{
}

/// Every request that is refused is answered, with the error that it met.
pub proof fn every_refusal_is_answered(
    request: ApiRequest,
    error: ApiError,
    account: Option<AccountId>,
    response: ApiResponse,
)
    requires
        answers(request, failed_reply(request, error), account, response),
    ensures
        match response {
            ApiResponse::Me(result) => result is Err && result->Err_0 == error,
            ApiResponse::NewReleases { result, .. } => result is Err && result->Err_0 == error,
            ApiResponse::Devices(result) => result is Err && result->Err_0 == error,
            ApiResponse::PlaybackState { result, .. } => result is Err && result->Err_0 == error,
            ApiResponse::Queue { result, .. } => result is Err && result->Err_0 == error,
            ApiResponse::RecentlyPlayed { result, .. } => result is Err && result->Err_0 == error,
            ApiResponse::TopTracks { result, .. } => result is Err && result->Err_0 == error,
            ApiResponse::TopArtists { result, .. } => result is Err && result->Err_0 == error,
            ApiResponse::Recommendations { result, .. } => result is Err && result->Err_0 == error,
            ApiResponse::Discover { result, .. } => result is Err && result->Err_0 == error,
            ApiResponse::MyPlaylists { result, .. } => result is Err && result->Err_0 == error,
            ApiResponse::Playlist { result, .. } => result is Err && result->Err_0 == error,
            ApiResponse::PlaylistItems { result, .. } => result is Err && result->Err_0 == error,
            ApiResponse::PlaylistSample { result, .. } => result is Err && result->Err_0 == error,
            ApiResponse::PlaylistCreated(result) => result is Err && result->Err_0 == error,
            ApiResponse::PlaylistCoverUploaded { result, .. } => result is Err && result->Err_0
                == error,
            ApiResponse::PlaylistUpdated { result, .. } => result is Err && result->Err_0 == error,
            ApiResponse::PlaylistDuplicatesChecked { result, .. } => result is Err && result->Err_0
                == error,
            ApiResponse::PlaylistItemsChanged { result, .. } => result is Err && result->Err_0
                == error,
            ApiResponse::PlaylistFollowChanged { result, .. } => result is Err && result->Err_0
                == error,
            ApiResponse::SavedTracks { result, .. } => result is Err && result->Err_0 == error,
            ApiResponse::SavedAlbums { result, .. } => result is Err && result->Err_0 == error,
            ApiResponse::FollowedArtists { result, .. } => result is Err && result->Err_0 == error,
            ApiResponse::SavedShows { result, .. } => result is Err && result->Err_0 == error,
            ApiResponse::SavedEpisodes { result, .. } => result is Err && result->Err_0 == error,
            ApiResponse::SavedChanged { result, .. } => result is Err && result->Err_0 == error,
            ApiResponse::Contains { result, .. } => result is Err && result->Err_0 == error,
            ApiResponse::SearchStarted { .. } => false,
            ApiResponse::Search { result, .. } => result is Err && result->Err_0 == error,
            ApiResponse::SearchPlaylists { result, .. } => result is Err && result->Err_0 == error,
            ApiResponse::Artist { result, .. } => result is Err && result->Err_0 == error,
            ApiResponse::ArtistTopTracks { result, .. } => result is Err && result->Err_0 == error,
            ApiResponse::ArtistAlbums { result, .. } => result is Err && result->Err_0 == error,
            ApiResponse::RelatedArtists { result, .. } => result is Err && result->Err_0 == error,
            ApiResponse::Album { result, .. } => result is Err && result->Err_0 == error,
            ApiResponse::AlbumTracks { result, .. } => result is Err && result->Err_0 == error,
            ApiResponse::AlbumQueueTracks { result, .. } => result is Err && result->Err_0 == error,
            ApiResponse::Show { result, .. } => result is Err && result->Err_0 == error,
            ApiResponse::ShowEpisodes { result, .. } => result is Err && result->Err_0 == error,
            ApiResponse::Track { result, .. } => result is Err && result->Err_0 == error,
            ApiResponse::Episode { result, .. } => result is Err && result->Err_0 == error,
            ApiResponse::Remote { result, .. } => result is Err && result->Err_0 == error,
            ApiResponse::Transferred { result, .. } => result is Err && result->Err_0 == error,
            ApiResponse::QueueAdded { result, .. } => result is Err && result->Err_0 == error,
            ApiResponse::QueueBatchAdded { added, result, .. } => added == 0 && result is Err
                && result->Err_0 == error,
        },
{
}

/// Of a refusal because a sign-in has expired it is known whose it is; any other
/// ends no sign-in.
pub proof fn only_an_expired_sign_in_ends(request: ApiRequest, error: ApiError)
    ensures
        error matches ApiError::SignInExpired { api_source } ==> expired_source(
            failed_reply(request, error),
        ) == Some(api_source),
        !(error is SignInExpired) ==> expired_source(failed_reply(request, error)) is None,
{
}

/// A request is answered whenever its outcome is one of its own, and with the answer that
/// belongs to the two.
pub proof fn an_outcome_becomes_its_answer(
    request: ApiRequest,
    reply: Reply,
    account: Option<AccountId>,
    error: ApiError,
    r: Option<ApiResponse>,
    response: ApiResponse,
    failed: Reply,
)
    requires
        call_ensures(respond, (request, reply, account), r),
        call_ensures(refused, (&request, error), failed),
    ensures
        r matches Some(told) ==> answers(request, reply, account, told),
        answers(request, reply, account, response) ==> r is Some,
        failed == failed_reply(request, error),
{
}

} // verus!
