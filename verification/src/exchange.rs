//! From a request of the interface to the calls it takes, and from their
//! outcome to the answer the interface gets.

use vstd::prelude::*;

use crate::api::{ApiRequest, ApiResponse, RemoteAction, PLAYLIST_PAGE_SIZE};
use crate::client::{
    artist_albums_page, at_most, detail_fields, library_write, paged, path1, path2, playlist_edit,
    playlist_page, queue_append, search_for, with_snapshot, ApiClient, DuplicateWalk, QueueBatch,
};
use crate::error::{ApiError, ApiResult, ApiSource};
use crate::gateway::{
    access_seen, may_edit, observe_playlists, operation_for, operation_spec, AccountId, Gateway, Route,
    SessionState,
};
use crate::models::{
    text_of, Album, Artist, CursorPage, Device, Episode, Page, PlayHistory, PlayableItem,
    PlaybackState, Playlist, PlaylistItem, Queue, SavedAlbum, SavedEpisode, SavedShow, SavedTrack,
    SearchResults, Show, Track, User,
};
use crate::request::{
    bare, flag_field, number_field, opt_text, text_field, BodyModel, HttpRequest, PlayRequest,
    RequestModel, ValueModel,
};
use crate::text::{join2, joined, same_text, texts};
use crate::transport::Method;

verus! {

// ---- the streaming session ---------------------------------------------------------

/// Whether a session signed in as `username` answers for the Web API's
/// account. Local playback is approved separately, and another account's view
/// of a playlist is not this one's.
pub open spec fn is_account(username: Seq<char>, account: Option<AccountId>) -> bool {
    match account {
        Some(account) => account.id@ == username,
        None => false,
    }
}

pub fn same_account(username: &str, account: Option<&AccountId>) -> (r: bool)
    ensures
        r == is_account(
            username@,
            match account {
                Some(account) => Some(*account),
                None => None,
            },
        ),
{
    match account {
        Some(account) => same_text(account.as_str(), username),
        None => false,
    }
}

/// The read that a request asks of the streaming session.
#[derive(Debug, PartialEq, Eq)]
pub enum SessionRead<'a> {
    Header { id: &'a str },
    Rows { id: &'a str, offset: u32 },
    Sample { id: &'a str, offset: u32 },
}

/// A read of the streaming session as plain values.
pub ghost enum ReadModel {
    Header(Seq<char>),
    Rows(Seq<char>, u32),
    Sample(Seq<char>, u32),
}

impl<'a> SessionRead<'a> {
    pub open spec fn view(&self) -> ReadModel {
        match *self {
            SessionRead::Header { id } => ReadModel::Header(id@),
            SessionRead::Rows { id, offset } => ReadModel::Rows(id@, offset),
            SessionRead::Sample { id, offset } => ReadModel::Sample(id@, offset),
        }
    }
}

/// A playlist's header, a page of its rows, or a sample of who added them. For
/// anything else, a check for duplicates among it, the session is not asked.
pub open spec fn session_read_spec(request: ApiRequest) -> Option<ReadModel> {
    match request {
        ApiRequest::Playlist { id, .. } => Some(ReadModel::Header(id@)),
        ApiRequest::PlaylistItems { id, offset, .. } => Some(ReadModel::Rows(id@, offset)),
        ApiRequest::PlaylistSample { id, offset, .. } => Some(ReadModel::Sample(id@, offset)),
        _ => None,
    }
}

pub fn session_read<'a>(request: &'a ApiRequest) -> (r: Option<SessionRead<'a>>)
    ensures
        match r {
            Some(read) => session_read_spec(*request) == Some(read@),
            None => session_read_spec(*request) is None,
        },
{
    match request {
        ApiRequest::Playlist { id, .. } => Some(SessionRead::Header { id: id.as_str() }),
        ApiRequest::PlaylistItems { id, offset, .. } => Some(
            SessionRead::Rows { id: id.as_str(), offset: *offset },
        ),
        ApiRequest::PlaylistSample { id, offset, .. } => Some(
            SessionRead::Sample { id: id.as_str(), offset: *offset },
        ),
        _ => None,
    }
}

/// Whether the streaming session is asked before the Web API: it may serve the
/// request, there is one, and it is signed in to the same account.
pub open spec fn session_asked(
    api: Gateway,
    request: ApiRequest,
    username: Option<Seq<char>>,
) -> bool {
    let operation = operation_spec(api.access, request);
    &&& operation is PlaylistMetadata || operation is PlaylistItems
    &&& Gateway::source_for_spec(api.personal is Ready, operation) == ApiSource::Shared
    &&& username is Some
    &&& is_account(username->0, api.account_spec())
    &&& session_read_spec(request) is Some
}

pub fn asks_session(api: &Gateway, request: &ApiRequest, username: Option<&str>) -> (r: bool)
    requires
        api.wf(),
    ensures
        r == session_asked(*api, *request, opt_text(username)),
{
    if !api.session_serves(operation_for(api, request)) {
        return false;
    }
    match username {
        None => false,
        Some(username) => {
            let account = api.account();
            let same = match &account {
                Some(account) => same_account(username, Some(account)),
                None => false,
            };
            same && session_read(request).is_some()
        },
    }
}

/// Why a read of the streaming session failed.
#[derive(Debug, PartialEq, Eq)]
pub enum Failure {
    /// The answer is no, whoever asks.
    Definitive(ApiError),
    /// The line failed; somebody else may ask.
    Retry(String),
}

pub open spec fn settled<T>(result: Result<T, Failure>) -> Option<ApiResult<T>> {
    match result {
        Ok(value) => Some(Ok(value)),
        Err(Failure::Definitive(error)) => Some(Err(error)),
        Err(Failure::Retry(_)) => None,
    }
}

/// A session's answer as the Web API would have given it. A final refusal is
/// shown as such; a failed line leaves the question to the Web API.
pub fn settle<T>(result: Result<T, Failure>) -> (r: Option<ApiResult<T>>)
    ensures
        r == settled(result),
{
    match result {
        Ok(value) => Some(Ok(value)),
        Err(Failure::Definitive(error)) => Some(Err(error)),
        Err(Failure::Retry(_)) => None,
    }
}

/// What the session read: a playlist's header, or a page of its rows.
#[derive(Debug, PartialEq, Eq)]
pub enum SessionAnswer {
    Header(ApiResult<Playlist>),
    Rows(ApiResult<Page<PlaylistItem>>),
}

pub open spec fn session_response_spec(request: ApiRequest, answer: SessionAnswer) -> Option<
    ApiResponse,
> {
    match (request, answer) {
        (ApiRequest::Playlist { id, generation }, SessionAnswer::Header(result)) => Some(
            ApiResponse::Playlist { id, generation, result },
        ),
        (
            ApiRequest::PlaylistItems { id, offset, generation },
            SessionAnswer::Rows(result),
        ) => Some(ApiResponse::PlaylistItems { id, offset, generation, result }),
        (
            ApiRequest::PlaylistSample { id, generation, .. },
            SessionAnswer::Rows(result),
        ) => Some(ApiResponse::PlaylistSample { id, generation, result }),
        _ => None,
    }
}

/// The response that a session's answer becomes, with the request's own id,
/// offset, and generation, so that it finds the page that asked.
pub fn session_response(request: &ApiRequest, answer: SessionAnswer) -> (r: Option<ApiResponse>)
    ensures
        r == session_response_spec(*request, answer),
{
    match (request, answer) {
        (ApiRequest::Playlist { id, generation }, SessionAnswer::Header(result)) => Some(
            ApiResponse::Playlist { id: id.clone(), generation: *generation, result },
        ),
        (
            ApiRequest::PlaylistItems { id, offset, generation },
            SessionAnswer::Rows(result),
        ) => Some(
            ApiResponse::PlaylistItems {
                id: id.clone(),
                offset: *offset,
                generation: *generation,
                result,
            },
        ),
        (
            ApiRequest::PlaylistSample { id, generation, .. },
            SessionAnswer::Rows(result),
        ) => Some(
            ApiResponse::PlaylistSample { id: id.clone(), generation: *generation, result },
        ),
        _ => None,
    }
}

/// What asking the session came to: `None` leaves the request to the Web API,
/// as does a read that took too long, for which `answer` is `None`.
pub fn over_session(request: &ApiRequest, answer: Option<SessionAnswer>) -> (r: Option<ApiResponse>)
    ensures
        r == match answer {
            Some(answer) => session_response_spec(*request, answer),
            None => None,
        },
{
    match answer {
        Some(answer) => session_response(request, answer),
        None => None,
    }
}

/// The session answers reads alone, and its answer bears the identity of the
/// request.
pub proof fn session_answers_match_their_request(request: ApiRequest, answer: SessionAnswer)
    ensures
        session_response_spec(request, answer) is Some ==> session_read_spec(request) is Some,
        session_response_spec(request, answer) matches Some(
            ApiResponse::PlaylistItems { id, offset, generation, .. },
        ) ==> request == (ApiRequest::PlaylistItems { id, offset, generation }),
        session_response_spec(request, answer) matches Some(
            ApiResponse::Playlist { id, generation, .. },
        ) ==> request == (ApiRequest::Playlist { id, generation }),
{
}

// ---- the calls of a request ----------------------------------------------------------

/// An optional text as a reference.
fn as_text(text: &Option<String>) -> (r: Option<&str>)
    ensures
        opt_text(r) == text_of(*text),
{
    match text {
        Some(text) => Some(text.as_str()),
        None => None,
    }
}

/// The kinds that a search of everything but playlists asks for.
pub open spec fn catalogue_kinds() -> Seq<Seq<char>> {
    seq!["track"@, "artist"@, "album"@, "show"@, "episode"@]
}

/// The kinds that a search of everything asks for.
pub open spec fn all_kinds() -> Seq<Seq<char>> {
    seq!["track"@, "artist"@, "album"@, "playlist"@, "show"@, "episode"@]
}

fn catalogue_types() -> (r: Vec<String>)
    ensures
        texts(r@) == catalogue_kinds(),
{
    let r = vec![
        "track".to_owned(),
        "artist".to_owned(),
        "album".to_owned(),
        "show".to_owned(),
        "episode".to_owned(),
    ];
    assert(texts(r@) =~= catalogue_kinds());
    r
}

fn all_types() -> (r: Vec<String>)
    ensures
        texts(r@) == all_kinds(),
{
    let r = vec![
        "track".to_owned(),
        "artist".to_owned(),
        "album".to_owned(),
        "playlist".to_owned(),
        "show".to_owned(),
        "episode".to_owned(),
    ];
    assert(texts(r@) =~= all_kinds());
    r
}

fn playlist_type() -> (r: Vec<String>)
    ensures
        texts(r@) == seq!["playlist"@],
{
    let r = vec!["playlist".to_owned()];
    assert(texts(r@) =~= seq!["playlist"@]);
    r
}

/// The addresses of what is played.
pub open spec fn item_uris(items: Seq<PlayableItem>) -> Seq<Seq<char>> {
    Seq::new(items.len(), |i: int| items[i].uri_spec())
}

fn uris_of(items: &Vec<PlayableItem>) -> (r: Vec<String>)
    ensures
        texts(r@) == item_uris(items@),
{
    let mut uris: Vec<String> = Vec::new();
    let mut i: usize = 0;
    while i < items.len()
        invariant
            i <= items@.len(),
            uris@.len() == i,
            forall|k: int| 0 <= k < i ==> #[trigger] uris@[k]@ == items@[k].uri_spec(),
        decreases items.len() - i,
    {
        uris.push(items[i].uri().to_owned());
        i += 1;
    }
    assert(texts(uris@) =~= item_uris(items@));
    uris
}

/// The call of a remote control.
pub open spec fn remote_call(
    action: RemoteAction,
    device: Option<Seq<char>>,
    play: Option<PlayRequest>,
    position_ms: u32,
    percent: u8,
    flag: bool,
    repeat: Seq<char>,
) -> RequestModel {
    match action {
        RemoteAction::Play => play_call(device, play),
        RemoteAction::Pause => bare(Method::Put, "/me/player/pause"@).on_device(device),
        RemoteAction::Next => bare(Method::Post, "/me/player/next"@).on_device(device),
        RemoteAction::Previous => bare(Method::Post, "/me/player/previous"@).on_device(device),
        RemoteAction::Seek => bare(Method::Put, "/me/player/seek"@).on_device(device).with_number(
            "position_ms"@,
            position_ms as nat,
        ),
        RemoteAction::Volume => bare(Method::Put, "/me/player/volume"@).on_device(
            device,
        ).with_number("volume_percent"@, at_most(percent as u32, 100) as nat),
        RemoteAction::Shuffle => shuffle_call(device, flag),
        RemoteAction::Repeat => bare(Method::Put, "/me/player/repeat"@).on_device(device).with(
            "state"@,
            repeat,
        ),
    }
}

/// The call that starts playback.
pub open spec fn play_call(device: Option<Seq<char>>, play: Option<PlayRequest>) -> RequestModel {
    let plain = bare(Method::Put, "/me/player/play"@).on_device(device);
    match play {
        Some(request) => plain.carrying(request.body_spec()),
        None => plain,
    }
}

/// The call that turns shuffle on or off.
pub open spec fn shuffle_call(device: Option<Seq<char>>, on: bool) -> RequestModel {
    bare(Method::Put, "/me/player/shuffle"@).on_device(device).with(
        "state"@,
        if on {
            "true"@
        } else {
            "false"@
        },
    )
}

/// The one call that a request takes; `None` for the requests that take more,
/// or that may be refused before a call.
pub open spec fn call_of(request: ApiRequest, client: ApiClient) -> Option<RequestModel> {
    match request {
        ApiRequest::Me => Some(bare(Method::Get, "/me"@)),
        ApiRequest::Devices => Some(bare(Method::Get, "/me/player/devices"@)),
        ApiRequest::PlaybackState { .. } => Some(
            bare(Method::Get, "/me/player"@).with("additional_types"@, "track,episode"@),
        ),
        ApiRequest::Queue { .. } => Some(bare(Method::Get, "/me/player/queue"@)),
        ApiRequest::RecentlyPlayed { before, limit, .. } => Some(
            bare(Method::Get, "/me/player/recently-played"@).with_number(
                "limit"@,
                limit as nat,
            ).with_optional("before"@, text_of(before)),
        ),
        ApiRequest::TopTracks { offset, full, .. } => Some(
            paged(
                "/me/top/tracks"@,
                if full {
                    50
                } else {
                    20
                },
                offset,
            ).with("time_range"@, "short_term"@),
        ),
        ApiRequest::TopArtists { .. } => Some(
            bare(Method::Get, "/me/top/artists"@).with_number("limit"@, 20).with(
                "time_range"@,
                "medium_term"@,
            ),
        ),
        ApiRequest::Recommendations { seed_tracks, seed_artists, .. } => Some(
            bare(Method::Get, "/recommendations"@).with_number("limit"@, 20).with_optional(
                "seed_tracks"@,
                if seed_tracks@.len() > 0 {
                    Some(joined(texts(seed_tracks@), ","@))
                } else {
                    None
                },
            ).with_optional(
                "seed_artists"@,
                if seed_artists@.len() > 0 {
                    Some(joined(texts(seed_artists@), ","@))
                } else {
                    None
                },
            ),
        ),
        ApiRequest::Discover { term, .. } => Some(
            search_for(term@, seq!["playlist"@], client.search_limit),
        ),
        ApiRequest::MyPlaylists { offset } => Some(paged("/me/playlists"@, 50, offset)),
        ApiRequest::Playlist { id, .. } => Some(bare(Method::Get, path1("/playlists/"@, id@))),
        ApiRequest::PlaylistItems { id, offset, .. } => Some(
            playlist_page(id@, offset, PLAYLIST_PAGE_SIZE),
        ),
        ApiRequest::PlaylistSample { id, offset, .. } => Some(
            playlist_page(id@, offset, PLAYLIST_PAGE_SIZE),
        ),
        ApiRequest::CreatePlaylist { name, public, description } => Some(
            bare(Method::Post, "/me/playlists"@).carrying(
                seq![
                    text_field("name"@, name@),
                    flag_field("public"@, public),
                    text_field("description"@, description@),
                ],
            ),
        ),
        ApiRequest::UpdatePlaylist { id, name, description, public } => Some(
            bare(Method::Put, path1("/playlists/"@, id@)).carrying(
                detail_fields(text_of(name), text_of(description), public),
            ),
        ),
        ApiRequest::AddToPlaylist { playlist_id, uris, position, .. } => Some(
            playlist_edit(
                Method::Post,
                playlist_id@,
                ({
                    let listed = seq![("uris"@, ValueModel::Texts(texts(uris@)))];
                    match position {
                        Some(position) => listed.push(number_field("position"@, position)),
                        None => listed,
                    }
                }),
            ),
        ),
        ApiRequest::RemoveFromPlaylist { playlist_id, uris, snapshot_id } => Some(
            playlist_edit(
                Method::Delete,
                playlist_id@,
                with_snapshot(
                    seq![("items"@, ValueModel::Objects("uri"@, texts(uris@)))],
                    text_of(snapshot_id),
                ),
            ),
        ),
        ApiRequest::ReorderPlaylist { playlist_id, range_start, insert_before, snapshot_id } =>
            Some(
            playlist_edit(
                Method::Put,
                playlist_id@,
                with_snapshot(
                    seq![
                        number_field("range_start"@, range_start),
                        number_field("insert_before"@, insert_before),
                        number_field("range_length"@, 1),
                    ],
                    text_of(snapshot_id),
                ),
            ),
        ),
        ApiRequest::FollowPlaylist { id, follow } => Some(
            bare(
                if follow {
                    Method::Put
                } else {
                    Method::Delete
                },
                "/me/library"@,
            ).with("uris"@, path1("spotify:playlist:"@, id@)),
        ),
        ApiRequest::SavedTracks { offset, .. } => Some(paged("/me/tracks"@, 50, offset)),
        ApiRequest::SavedAlbums { offset } => Some(paged("/me/albums"@, 50, offset)),
        ApiRequest::FollowedArtists { after } => Some(
            bare(Method::Get, "/me/following"@).with("type"@, "artist"@).with_number(
                "limit"@,
                50,
            ).with_optional("after"@, text_of(after)),
        ),
        ApiRequest::SavedShows { offset } => Some(paged("/me/shows"@, 50, offset)),
        ApiRequest::SavedEpisodes { offset } => Some(paged("/me/episodes"@, 50, offset)),
        ApiRequest::SetSaved { uris, saved } => Some(
            library_write(
                if saved {
                    Method::Put
                } else {
                    Method::Delete
                },
                texts(uris@),
            ),
        ),
        ApiRequest::Contains { uris } => Some(
            bare(Method::Get, "/me/library/contains"@).with(
                "uris"@,
                joined(texts(uris@), ","@),
            ),
        ),
        ApiRequest::Search { query, .. } => Some(
            search_for(query@, all_kinds(), client.search_limit),
        ),
        ApiRequest::SearchCatalogue { query, .. } => Some(
            search_for(query@, catalogue_kinds(), client.search_limit),
        ),
        ApiRequest::SearchPlaylists { query, .. } => Some(
            search_for(query@, seq!["playlist"@], client.search_limit),
        ),
        ApiRequest::Artist { id } => Some(bare(Method::Get, path1("/artists/"@, id@))),
        ApiRequest::ArtistTopTracks { id } => Some(
            bare(Method::Get, path2("/artists/"@, id@, "/top-tracks"@)),
        ),
        ApiRequest::ArtistAlbums { id, groups, offset } => Some(
            artist_albums_page(id@, groups@, at_most(50, client.artist_albums_limit), offset),
        ),
        ApiRequest::RelatedArtists { id } => Some(
            bare(Method::Get, path2("/artists/"@, id@, "/related-artists"@)),
        ),
        ApiRequest::Album { id } => Some(bare(Method::Get, path1("/albums/"@, id@))),
        ApiRequest::AlbumTracks { id, offset, .. } => Some(
            paged(path2("/albums/"@, id@, "/tracks"@), 50, offset),
        ),
        ApiRequest::AlbumQueueTracks { id, offset, .. } => Some(
            paged(path2("/albums/"@, id@, "/tracks"@), 50, offset),
        ),
        ApiRequest::Show { id } => Some(bare(Method::Get, path1("/shows/"@, id@))),
        ApiRequest::ShowEpisodes { id, offset } => Some(
            paged(path2("/shows/"@, id@, "/episodes"@), 50, offset),
        ),
        ApiRequest::Track { id } => Some(bare(Method::Get, path1("/tracks/"@, id@))),
        ApiRequest::Episode { id } => Some(bare(Method::Get, path1("/episodes/"@, id@))),
        ApiRequest::Remote { action, device_id, play, position_ms, percent, flag, repeat } => Some(
            remote_call(
                action,
                text_of(device_id),
                play,
                position_ms,
                percent,
                flag,
                repeat@,
            ),
        ),
        ApiRequest::Transfer { device_id, play } => Some(
            bare(Method::Put, "/me/player"@).carrying(
                seq![
                    ("device_ids"@, ValueModel::Texts(seq![device_id@])),
                    flag_field("play"@, play),
                ],
            ),
        ),
        ApiRequest::AddToQueue { uri, device_id, .. } => Some(
            queue_append(uri@, text_of(device_id)),
        ),
        _ => None,
    }
}

/// Where a request goes next.
#[derive(Debug, PartialEq, Eq)]
pub enum Course {
    /// To the streaming session. When that has no answer, it goes on to the
    /// Web API.
    Session,
    /// To the Web API, through an application that is signed in.
    Web(ApiSource),
    /// Nowhere before a sign-in that is under way has ended.
    Wait,
    /// Nowhere: this is its answer.
    Refuse(ApiError),
}

/// Where a request goes: to the streaming session first, when that may answer
/// and was not asked yet, and else to the Web API.
pub open spec fn course_of(
    api: Gateway,
    request: ApiRequest,
    username: Option<Seq<char>>,
    asked: bool,
) -> Course {
    if !asked && session_asked(api, request, username) {
        Course::Session
    } else {
        let source = Gateway::source_for_spec(
            api.personal is Ready,
            operation_spec(api.access, request),
        );
        match api.state_spec(source) {
            SessionState::Ready { .. } => Course::Web(source),
            SessionState::Authorizing => Course::Wait,
            SessionState::Unavailable => Course::Refuse(ApiError::NotSignedIn),
        }
    }
}

/// Where a request goes, given who the streaming session, if there is one, is
/// signed in as, and whether it was asked already.
pub fn course(api: &Gateway, request: &ApiRequest, username: Option<&str>, asked: bool) -> (r:
    Course)
    requires
        api.wf(),
    ensures
        r == course_of(*api, *request, opt_text(username), asked),
{
    if !asked && asks_session(api, request, username) {
        return Course::Session;
    }
    match api.client_for(operation_for(api, request)) {
        Route::Use(source) => Course::Web(source),
        Route::Wait => Course::Wait,
        Route::NotSignedIn => Course::Refuse(ApiError::NotSignedIn),
    }
}

/// A request that the streaming session could not answer is left to the Web
/// API, and nothing is asked of an application that is not signed in.
pub proof fn the_web_api_has_its_turn(
    api: Gateway,
    request: ApiRequest,
    username: Option<Seq<char>>,
    asked: bool,
)
    ensures
        !(course_of(api, request, username, true) is Session),
        username is None || api.account_spec() is None ==> !(course_of(
            api,
            request,
            username,
            asked,
        ) is Session),
        course_of(api, request, username, asked) matches Course::Web(source) ==> api.state_spec(
            source,
        ) is Ready,
{
}

/// Playlists that other people own, and every playlist when there is no
/// personal application, are read over the streaming session while it is
/// signed in to the account.
pub proof fn the_session_reads_what_is_not_the_personal_applications(
    api: Gateway,
    request: ApiRequest,
    username: Seq<char>,
)
    requires
        is_account(username, api.account_spec()),
        request is Playlist || request is PlaylistItems || request is PlaylistSample,
        !(api.personal is Ready) || (match request {
            ApiRequest::Playlist { id, .. } => !may_edit(api.access.of(id@)),
            ApiRequest::PlaylistItems { id, .. } => !may_edit(api.access.of(id@)),
            ApiRequest::PlaylistSample { id, .. } => !may_edit(api.access.of(id@)),
            _ => true,
        }),
    ensures
        course_of(api, request, Some(username), false) == Course::Session,
{
}

/// How a request is served by the Web API.
pub enum Plan {
    /// One call, whose outcome is the answer.
    Send(HttpRequest),
    /// Shuffle first; then, if that worked, `after_shuffle`.
    Shuffle(HttpRequest),
    /// Refused before anything is sent.
    Refuse(ApiError),
    /// A scan for recent releases.
    Releases,
    /// A walk through a playlist, if there is anything to look for.
    Duplicates(DuplicateWalk, bool),
    /// Appends to the queue, one after the other.
    Append(QueueBatch),
}

/// Whether a plan is the one for a request.
pub open spec fn plans(request: ApiRequest, client: ApiClient, plan: Plan) -> bool {
    match request {
        ApiRequest::NewReleases { .. } => plan is Releases,
        ApiRequest::ShufflePlay { device_id, .. } => plan matches Plan::Shuffle(call) && call@
            == shuffle_call(text_of(device_id), true),
        ApiRequest::UploadPlaylistCover { id, cover, .. } => if ApiClient::cover_fits(
            cover.encoded@,
        ) {
            plan matches Plan::Send(call) && call@ == (RequestModel {
                body: BodyModel::Jpeg(cover.encoded@),
                ..bare(Method::Put, path2("/playlists/"@, id@, "/images"@))
            })
        } else {
            plan matches Plan::Refuse(ApiError::Status { status, message }) && status == 413
                && message@ == "Choose a smaller image."@
        },
        ApiRequest::CheckPlaylistDuplicates { items, .. } => plan matches Plan::Duplicates(
            walk,
            looking,
        ) && walk.wf() && texts(walk.uris@) == item_uris(items@) && walk.found.list()
            == Seq::<Seq<char>>::empty() && walk.pages@.len() == 0 && walk.offset == 0 && looking == (items@.len() > 0),
        ApiRequest::AddManyToQueue { uris, device_id, .. } => plan matches Plan::Append(batch)
            && batch.uris@ == uris@ && batch.device_id == device_id && batch.added == 0,
        _ => plan matches Plan::Send(call) && call_of(request, client) == Some(call@),
    }
}

/// An optional list as a reference.
fn as_play(play: &Option<PlayRequest>) -> (r: Option<&PlayRequest>)
    ensures
        match r {
            Some(request) => *play == Some(*request),
            None => *play is None,
        },
{
    match play {
        Some(request) => Some(request),
        None => None,
    }
}

/// The call of a remote control.
fn remote_request(
    client: &ApiClient,
    action: RemoteAction,
    device: Option<&str>,
    play: &Option<PlayRequest>,
    position_ms: u32,
    percent: u8,
    flag: bool,
    repeat: &str,
) -> (r: HttpRequest)
    ensures
        r@ == remote_call(action, opt_text(device), *play, position_ms, percent, flag, repeat@),
{
    match action {
        RemoteAction::Play => client.play(device, as_play(play)),
        RemoteAction::Pause => client.pause(device),
        RemoteAction::Next => client.next(device),
        RemoteAction::Previous => client.previous(device),
        RemoteAction::Seek => client.seek(position_ms, device),
        RemoteAction::Volume => client.set_volume(percent, device),
        RemoteAction::Shuffle => client.set_shuffle(flag, device),
        RemoteAction::Repeat => client.set_repeat(repeat, device),
    }
}

/// How a request is served by a session of the Web API.
pub fn plan(request: &ApiRequest, client: &ApiClient) -> (r: Plan)
    ensures
        plans(*request, *client, r),
{
    match request {
        ApiRequest::Me => Plan::Send(client.me()),
        ApiRequest::NewReleases { .. } => Plan::Releases,
        ApiRequest::Devices => Plan::Send(client.devices()),
        ApiRequest::PlaybackState { .. } => Plan::Send(client.playback_state()),
        ApiRequest::Queue { .. } => Plan::Send(client.queue()),
        ApiRequest::RecentlyPlayed { before, limit, .. } => Plan::Send(
            client.recently_played(*limit, None, as_text(before)),
        ),
        ApiRequest::TopTracks { offset, full, .. } => {
            let limit: u32 = if *full {
                50
            } else {
                20
            };
            Plan::Send(client.top_tracks("short_term", limit, *offset))
        },
        ApiRequest::TopArtists { .. } => Plan::Send(client.top_artists("medium_term", 20)),
        ApiRequest::Recommendations { seed_tracks, seed_artists, .. } => Plan::Send(
            client.recommendations(seed_tracks, seed_artists, 20),
        ),
        ApiRequest::Discover { term, .. } => Plan::Send(
            client.search(term.as_str(), &playlist_type()),
        ),
        ApiRequest::MyPlaylists { offset } => Plan::Send(client.my_playlists(*offset, 50)),
        ApiRequest::Playlist { id, .. } => Plan::Send(client.playlist(id.as_str())),
        ApiRequest::PlaylistItems { id, offset, .. } => Plan::Send(
            client.playlist_items(id.as_str(), *offset, PLAYLIST_PAGE_SIZE),
        ),
        ApiRequest::PlaylistSample { id, offset, .. } => Plan::Send(
            client.playlist_items(id.as_str(), *offset, PLAYLIST_PAGE_SIZE),
        ),
        ApiRequest::CreatePlaylist { name, public, description } => Plan::Send(
            client.create_playlist(name.as_str(), *public, description.as_str()),
        ),
        ApiRequest::UploadPlaylistCover { id, cover, .. } => {
            match client.upload_playlist_cover(id.as_str(), cover.encoded.as_str()) {
                Ok(call) => Plan::Send(call),
                Err(error) => Plan::Refuse(error),
            }
        },
        ApiRequest::UpdatePlaylist { id, name, description, public } => Plan::Send(
            client.update_playlist(id.as_str(), as_text(name), as_text(description), *public),
        ),
        ApiRequest::CheckPlaylistDuplicates { items, .. } => {
            let (walk, looking) = DuplicateWalk::new(uris_of(items));
            Plan::Duplicates(walk, looking)
        },
        ApiRequest::AddToPlaylist { playlist_id, uris, position, .. } => Plan::Send(
            client.add_playlist_items(playlist_id.as_str(), uris, *position),
        ),
        ApiRequest::RemoveFromPlaylist { playlist_id, uris, snapshot_id } => Plan::Send(
            client.remove_playlist_items(playlist_id.as_str(), uris, as_text(snapshot_id)),
        ),
        ApiRequest::ReorderPlaylist { playlist_id, range_start, insert_before, snapshot_id } =>
            Plan::Send(
            client.reorder_playlist(
                playlist_id.as_str(),
                *range_start,
                *insert_before,
                as_text(snapshot_id),
            ),
        ),
        ApiRequest::FollowPlaylist { id, follow } => {
            if *follow {
                Plan::Send(client.follow_playlist(id.as_str()))
            } else {
                Plan::Send(client.unfollow_playlist(id.as_str()))
            }
        },
        ApiRequest::SavedTracks { offset, .. } => Plan::Send(client.saved_tracks(*offset, 50)),
        ApiRequest::SavedAlbums { offset } => Plan::Send(client.saved_albums(*offset, 50)),
        ApiRequest::FollowedArtists { after } => Plan::Send(
            client.followed_artists(as_text(after), 50),
        ),
        ApiRequest::SavedShows { offset } => Plan::Send(client.saved_shows(*offset, 50)),
        ApiRequest::SavedEpisodes { offset } => Plan::Send(client.saved_episodes(*offset, 50)),
        ApiRequest::SetSaved { uris, saved } => {
            if *saved {
                Plan::Send(client.save(uris))
            } else {
                Plan::Send(client.unsave(uris))
            }
        },
        ApiRequest::Contains { uris } => Plan::Send(client.contains(uris)),
        ApiRequest::Search { query, .. } => Plan::Send(
            client.search(query.as_str(), &all_types()),
        ),
        ApiRequest::SearchCatalogue { query, .. } => Plan::Send(
            client.search(query.as_str(), &catalogue_types()),
        ),
        ApiRequest::SearchPlaylists { query, .. } => Plan::Send(
            client.search(query.as_str(), &playlist_type()),
        ),
        ApiRequest::Artist { id } => Plan::Send(client.artist(id.as_str())),
        ApiRequest::ArtistTopTracks { id } => Plan::Send(client.artist_top_tracks(id.as_str())),
        ApiRequest::ArtistAlbums { id, groups, offset } => Plan::Send(
            client.artist_albums(id.as_str(), groups.as_str(), *offset, 50),
        ),
        ApiRequest::RelatedArtists { id } => Plan::Send(client.related_artists(id.as_str())),
        ApiRequest::Album { id } => Plan::Send(client.album(id.as_str())),
        ApiRequest::AlbumTracks { id, offset, .. } => Plan::Send(
            client.album_tracks(id.as_str(), *offset, 50),
        ),
        ApiRequest::AlbumQueueTracks { id, offset, .. } => Plan::Send(
            client.album_tracks(id.as_str(), *offset, 50),
        ),
        ApiRequest::Show { id } => Plan::Send(client.show(id.as_str())),
        ApiRequest::ShowEpisodes { id, offset } => Plan::Send(
            client.show_episodes(id.as_str(), *offset, 50),
        ),
        ApiRequest::Track { id } => Plan::Send(client.track(id.as_str())),
        ApiRequest::Episode { id } => Plan::Send(client.episode(id.as_str())),
        ApiRequest::Remote { action, device_id, play, position_ms, percent, flag, repeat } =>
            Plan::Send(
            remote_request(
                client,
                *action,
                as_text(device_id),
                play,
                *position_ms,
                *percent,
                *flag,
                repeat.as_str(),
            ),
        ),
        ApiRequest::Transfer { device_id, play } => Plan::Send(
            client.transfer(device_id.as_str(), *play),
        ),
        ApiRequest::ShufflePlay { device_id, .. } => Plan::Shuffle(
            client.set_shuffle(true, as_text(device_id)),
        ),
        ApiRequest::AddToQueue { uri, device_id, .. } => Plan::Send(
            client.add_to_queue(uri.as_str(), as_text(device_id)),
        ),
        ApiRequest::AddManyToQueue { uris, device_id, .. } => Plan::Append(
            QueueBatch::new(
                crate::request::clone_texts(uris),
                crate::models::clone_text(device_id),
            ),
        ),
    }
}

/// Goes on once shuffle was turned on: the context starts, unless that failed.
/// The two are never sent side by side, where shuffle could lose.
pub fn after_shuffle(
    client: &ApiClient,
    device_id: &Option<String>,
    play: &PlayRequest,
    shuffled: ApiResult<()>,
) -> (r: ApiResult<HttpRequest>)
    ensures
        match shuffled {
            Ok(_) => r matches Ok(call) && call@ == play_call(text_of(*device_id), Some(*play)),
            Err(error) => r == ApiResult::<HttpRequest>::Err(error),
        },
{
    match shuffled {
        Ok(_) => Ok(client.play(as_text(device_id), Some(play))),
        Err(error) => Err(error),
    }
}

// ---- the answer to a request ---------------------------------------------------------

/// What the calls of a request came to.
#[derive(Debug, PartialEq, Eq)]
pub enum Reply {
    Done(ApiResult<()>),
    Snapshot(ApiResult<Option<String>>),
    User(ApiResult<User>),
    Releases(ApiResult<Vec<Album>>),
    Devices(ApiResult<Vec<Device>>),
    Playback(ApiResult<Option<PlaybackState>>),
    Queue(ApiResult<Queue>),
    History(ApiResult<CursorPage<PlayHistory>>),
    Tracks(ApiResult<Page<Track>>),
    TrackList(ApiResult<Vec<Track>>),
    Artists(ApiResult<Page<Artist>>),
    ArtistList(ApiResult<Vec<Artist>>),
    Playlists(ApiResult<Page<Playlist>>),
    Playlist(ApiResult<Playlist>),
    Rows(ApiResult<Page<PlaylistItem>>),
    Duplicates(ApiResult<Vec<String>>),
    SavedTracks(ApiResult<Page<SavedTrack>>),
    SavedAlbums(ApiResult<Page<SavedAlbum>>),
    Followed(ApiResult<CursorPage<Artist>>),
    SavedShows(ApiResult<Page<SavedShow>>),
    SavedEpisodes(ApiResult<Page<SavedEpisode>>),
    Flags(ApiResult<Vec<bool>>),
    Search(ApiResult<SearchResults>),
    Artist(ApiResult<Artist>),
    Albums(ApiResult<Page<Album>>),
    Album(ApiResult<Album>),
    Show(ApiResult<Show>),
    Episodes(ApiResult<Page<Episode>>),
    Track(ApiResult<Track>),
    Episode(ApiResult<Episode>),
    /// How many songs were appended to the queue, and how that ended.
    Appended(usize, ApiResult<()>),
}

/// The id of an account, when there is one.
pub open spec fn id_of(account: Option<AccountId>) -> Option<String> {
    match account {
        Some(account) => Some(account.id),
        None => None,
    }
}

/// The items of a page, when the page came.
pub open spec fn items_of(
    result: ApiResult<Page<Artist>>,
) -> ApiResult<Vec<Artist>> {
    match result {
        Ok(page) => Ok(page.items),
        Err(error) => Err(error),
    }
}

/// Whether playlists are the ones that a search found, none when it has no
/// page of them.
pub open spec fn found_playlists(
    found: ApiResult<SearchResults>,
    shown: ApiResult<Vec<Playlist>>,
) -> bool {
    match found {
        Ok(results) => shown matches Ok(list) && list@ == match results.playlists {
            Some(page) => page.items@,
            None => Seq::empty(),
        },
        Err(error) => shown == ApiResult::<Vec<Playlist>>::Err(error),
    }
}

/// Whether a page of playlists is the one that a search found, an empty one
/// when it has none.
pub open spec fn found_page(
    found: ApiResult<SearchResults>,
    shown: ApiResult<Page<Playlist>>,
) -> bool {
    match found {
        Ok(results) => match results.playlists {
            Some(page) => shown == ApiResult::<Page<Playlist>>::Ok(page),
            None => shown matches Ok(page) && page.items@.len() == 0 && page.total == 0
                && page.limit == 0 && page.offset == 0 && page.next is None,
        },
        Err(error) => shown == ApiResult::<Page<Playlist>>::Err(error),
    }
}

/// What is shown when an edit of a playlist has worked.
pub open spec fn edit_message(request: ApiRequest) -> Seq<char> {
    match request {
        ApiRequest::AddToPlaylist { playlist_name, .. } => "Added to "@ + playlist_name@,
        ApiRequest::RemoveFromPlaylist { .. } => "Removed from playlist"@,
        _ => Seq::empty(),
    }
}

/// Whether an answer is the one that the outcome of a request's calls makes.
pub open spec fn answers(
    request: ApiRequest,
    reply: Reply,
    account: Option<AccountId>,
    response: ApiResponse,
) -> bool {
    match (request, reply) {
        (ApiRequest::Me, Reply::User(result)) => response == ApiResponse::Me(result),
        (ApiRequest::NewReleases { generation, .. }, Reply::Releases(result)) => response == (
        ApiResponse::NewReleases { generation, result }),
        (ApiRequest::Devices, Reply::Devices(result)) => response == ApiResponse::Devices(result),
        (ApiRequest::PlaybackState { seq }, Reply::Playback(result)) => response == (
        ApiResponse::PlaybackState { seq, result }),
        (ApiRequest::Queue { seq }, Reply::Queue(result)) => response == (ApiResponse::Queue {
            seq,
            result,
        }),
        (
            ApiRequest::RecentlyPlayed { who, generation, limit, .. },
            Reply::History(result),
        ) => response == (ApiResponse::RecentlyPlayed { who, generation, limit, result }),
        (ApiRequest::TopTracks { offset, full, generation }, Reply::Tracks(result)) => response
            == (ApiResponse::TopTracks { offset, full, generation, result }),
        (ApiRequest::TopArtists { generation }, Reply::Artists(result)) => response == (
        ApiResponse::TopArtists { generation, result: items_of(result) }),
        (ApiRequest::Recommendations { generation, .. }, Reply::TrackList(result)) => response == (
        ApiResponse::Recommendations { generation, result }),
        (ApiRequest::Discover { term, generation }, Reply::Search(found)) => response matches (
        ApiResponse::Discover { term: t, generation: g, result }) && t == term && g == generation
            && found_playlists(found, result),
        (ApiRequest::MyPlaylists { offset }, Reply::Playlists(result)) => response == (
        ApiResponse::MyPlaylists { offset, result }),
        (ApiRequest::Playlist { id, generation }, Reply::Playlist(result)) => response == (
        ApiResponse::Playlist { id, generation, result }),
        (ApiRequest::PlaylistItems { id, offset, generation }, Reply::Rows(result)) => response == (
        ApiResponse::PlaylistItems { id, offset, generation, result }),
        (ApiRequest::PlaylistSample { id, generation, .. }, Reply::Rows(result)) => response == (
        ApiResponse::PlaylistSample { id, generation, result }),
        (ApiRequest::CreatePlaylist { .. }, Reply::Playlist(result)) => response
            == ApiResponse::PlaylistCreated(result),
        (
            ApiRequest::UploadPlaylistCover { id, request, previous_urls, cover },
            Reply::Done(result),
        ) => response == (ApiResponse::PlaylistCoverUploaded {
            id,
            request,
            previous_urls,
            cover,
            result,
        }),
        (ApiRequest::UpdatePlaylist { id, .. }, Reply::Done(result)) => response == (
        ApiResponse::PlaylistUpdated { id, result }),
        (
            ApiRequest::CheckPlaylistDuplicates { playlist_id, playlist_name, items, position },
            Reply::Duplicates(result),
        ) => response == (ApiResponse::PlaylistDuplicatesChecked {
            playlist_id,
            playlist_name,
            items,
            position,
            result,
        }),
        (ApiRequest::AddToPlaylist { playlist_id, .. }, Reply::Snapshot(result))
        | (ApiRequest::RemoveFromPlaylist { playlist_id, .. }, Reply::Snapshot(result))
        | (ApiRequest::ReorderPlaylist { playlist_id, .. }, Reply::Snapshot(result)) => response
            matches (ApiResponse::PlaylistItemsChanged { id, message, result: shown }) && id
            == playlist_id && message@ == edit_message(request) && shown == result,
        (ApiRequest::FollowPlaylist { id, follow }, Reply::Done(result)) => response == (
        ApiResponse::PlaylistFollowChanged { id, followed: follow, result }),
        (ApiRequest::SavedTracks { offset, generation }, Reply::SavedTracks(result)) => response
            == (ApiResponse::SavedTracks {
            offset,
            generation,
            account_id: id_of(account),
            result,
        }),
        (ApiRequest::SavedAlbums { offset }, Reply::SavedAlbums(result)) => response == (
        ApiResponse::SavedAlbums { offset, result }),
        (ApiRequest::FollowedArtists { after }, Reply::Followed(result)) => response == (
        ApiResponse::FollowedArtists { after, result }),
        (ApiRequest::SavedShows { offset }, Reply::SavedShows(result)) => response == (
        ApiResponse::SavedShows { offset, result }),
        (ApiRequest::SavedEpisodes { offset }, Reply::SavedEpisodes(result)) => response == (
        ApiResponse::SavedEpisodes { offset, result }),
        (ApiRequest::SetSaved { uris, saved }, Reply::Done(result)) => response == (
        ApiResponse::SavedChanged { uris, saved, result }),
        (ApiRequest::Contains { uris }, Reply::Flags(result)) => response == (
        ApiResponse::Contains { uris, result }),
        (ApiRequest::Search { query, serial }, Reply::Search(result)) => response == (
        ApiResponse::Search { query, serial, result }),
        (ApiRequest::SearchCatalogue { query, serial }, Reply::Search(result)) => response == (
        ApiResponse::Search { query, serial, result }),
        (ApiRequest::SearchPlaylists { query, serial }, Reply::Search(found)) => response matches (
        ApiResponse::SearchPlaylists { query: q, serial: s, result }) && q == query && s == serial
            && found_page(found, result),
        (ApiRequest::Artist { id }, Reply::Artist(result)) => response == (ApiResponse::Artist {
            id,
            result,
        }),
        (ApiRequest::ArtistTopTracks { id }, Reply::TrackList(result)) => response == (
        ApiResponse::ArtistTopTracks { id, result }),
        (ApiRequest::ArtistAlbums { id, groups, offset }, Reply::Albums(result)) => response == (
        ApiResponse::ArtistAlbums { id, groups, offset, result }),
        (ApiRequest::RelatedArtists { id }, Reply::ArtistList(result)) => response == (
        ApiResponse::RelatedArtists { id, result }),
        (ApiRequest::Album { id }, Reply::Album(result)) => response == (ApiResponse::Album {
            id,
            result,
        }),
        (ApiRequest::AlbumTracks { id, offset, generation }, Reply::Tracks(result)) => response == (
        ApiResponse::AlbumTracks { id, offset, generation, result }),
        (ApiRequest::AlbumQueueTracks { offset, request, .. }, Reply::Tracks(result)) => response
            == (ApiResponse::AlbumQueueTracks { offset, request, result }),
        (ApiRequest::Show { id }, Reply::Show(result)) => response == (ApiResponse::Show {
            id,
            result,
        }),
        (ApiRequest::ShowEpisodes { id, offset }, Reply::Episodes(result)) => response == (
        ApiResponse::ShowEpisodes { id, offset, result }),
        (ApiRequest::Track { id }, Reply::Track(result)) => response == (ApiResponse::Track {
            id,
            result,
        }),
        (ApiRequest::Episode { id }, Reply::Episode(result)) => response == (
        ApiResponse::Episode { id, result }),
        (ApiRequest::Remote { action, .. }, Reply::Done(result)) => response == (
        ApiResponse::Remote { action, result }),
        (ApiRequest::ShufflePlay { .. }, Reply::Done(result)) => response == (ApiResponse::Remote {
            action: RemoteAction::Play,
            result,
        }),
        (ApiRequest::Transfer { device_id, .. }, Reply::Done(result)) => response == (
        ApiResponse::Transferred { device_id, result }),
        (ApiRequest::AddToQueue { label, .. }, Reply::Done(result)) => response == (
        ApiResponse::QueueAdded { label, result }),
        (ApiRequest::AddManyToQueue { request, .. }, Reply::Appended(added, result)) => response
            == (ApiResponse::QueueBatchAdded { request, added, result }),
        _ => false,
    }
}

/// The answer that the outcome of a request's calls makes; `None` when the
/// outcome is not one of that request.
pub fn respond(request: ApiRequest, reply: Reply, account: Option<AccountId>) -> (r: Option<
    ApiResponse,
>)
    ensures
        match r {
            Some(response) => answers(request, reply, account, response),
            None => forall|response: ApiResponse| !answers(request, reply, account, response),
        },
{
    let response = match (request, reply) {
        (ApiRequest::Me, Reply::User(result)) => ApiResponse::Me(result),
        (ApiRequest::NewReleases { generation, .. }, Reply::Releases(result)) =>
            ApiResponse::NewReleases { generation, result },
        (ApiRequest::Devices, Reply::Devices(result)) => ApiResponse::Devices(result),
        (ApiRequest::PlaybackState { seq }, Reply::Playback(result)) =>
            ApiResponse::PlaybackState { seq, result },
        (ApiRequest::Queue { seq }, Reply::Queue(result)) => ApiResponse::Queue { seq, result },
        (
            ApiRequest::RecentlyPlayed { who, generation, limit, .. },
            Reply::History(result),
        ) => ApiResponse::RecentlyPlayed { who, generation, limit, result },
        (ApiRequest::TopTracks { offset, full, generation }, Reply::Tracks(result)) =>
            ApiResponse::TopTracks { offset, full, generation, result },
        (ApiRequest::TopArtists { generation }, Reply::Artists(result)) => {
            let result = match result {
                Ok(page) => Ok(page.items),
                Err(error) => Err(error),
            };
            ApiResponse::TopArtists { generation, result }
        },
        (ApiRequest::Recommendations { generation, .. }, Reply::TrackList(result)) =>
            ApiResponse::Recommendations { generation, result },
        (ApiRequest::Discover { term, generation }, Reply::Search(found)) => {
            let result = match found {
                Ok(results) => match results.playlists {
                    Some(page) => Ok(page.items),
                    None => Ok(Vec::new()),
                },
                Err(error) => Err(error),
            };
            ApiResponse::Discover { term, generation, result }
        },
        (ApiRequest::MyPlaylists { offset }, Reply::Playlists(result)) =>
            ApiResponse::MyPlaylists { offset, result },
        (ApiRequest::Playlist { id, generation }, Reply::Playlist(result)) =>
            ApiResponse::Playlist { id, generation, result },
        (ApiRequest::PlaylistItems { id, offset, generation }, Reply::Rows(result)) =>
            ApiResponse::PlaylistItems { id, offset, generation, result },
        (ApiRequest::PlaylistSample { id, generation, .. }, Reply::Rows(result)) =>
            ApiResponse::PlaylistSample { id, generation, result },
        (ApiRequest::CreatePlaylist { .. }, Reply::Playlist(result)) =>
            ApiResponse::PlaylistCreated(result),
        (
            ApiRequest::UploadPlaylistCover { id, request, previous_urls, cover },
            Reply::Done(result),
        ) => ApiResponse::PlaylistCoverUploaded { id, request, previous_urls, cover, result },
        (ApiRequest::UpdatePlaylist { id, .. }, Reply::Done(result)) =>
            ApiResponse::PlaylistUpdated { id, result },
        (
            ApiRequest::CheckPlaylistDuplicates { playlist_id, playlist_name, items, position },
            Reply::Duplicates(result),
        ) => ApiResponse::PlaylistDuplicatesChecked {
            playlist_id,
            playlist_name,
            items,
            position,
            result,
        },
        (
            ApiRequest::AddToPlaylist { playlist_id, playlist_name, .. },
            Reply::Snapshot(result),
        ) => ApiResponse::PlaylistItemsChanged {
            id: playlist_id,
            message: join2("Added to ", playlist_name.as_str()),
            result,
        },
        (ApiRequest::RemoveFromPlaylist { playlist_id, .. }, Reply::Snapshot(result)) =>
            ApiResponse::PlaylistItemsChanged {
            id: playlist_id,
            message: "Removed from playlist".to_owned(),
            result,
        },
        (ApiRequest::ReorderPlaylist { playlist_id, .. }, Reply::Snapshot(result)) =>
            ApiResponse::PlaylistItemsChanged { id: playlist_id, message: String::new(), result },
        (ApiRequest::FollowPlaylist { id, follow }, Reply::Done(result)) =>
            ApiResponse::PlaylistFollowChanged { id, followed: follow, result },
        (ApiRequest::SavedTracks { offset, generation }, Reply::SavedTracks(result)) => {
            let account_id = match account {
                Some(account) => Some(account.id),
                None => None,
            };
            ApiResponse::SavedTracks { offset, generation, account_id, result }
        },
        (ApiRequest::SavedAlbums { offset }, Reply::SavedAlbums(result)) =>
            ApiResponse::SavedAlbums { offset, result },
        (ApiRequest::FollowedArtists { after }, Reply::Followed(result)) =>
            ApiResponse::FollowedArtists { after, result },
        (ApiRequest::SavedShows { offset }, Reply::SavedShows(result)) =>
            ApiResponse::SavedShows { offset, result },
        (ApiRequest::SavedEpisodes { offset }, Reply::SavedEpisodes(result)) =>
            ApiResponse::SavedEpisodes { offset, result },
        (ApiRequest::SetSaved { uris, saved }, Reply::Done(result)) =>
            ApiResponse::SavedChanged { uris, saved, result },
        (ApiRequest::Contains { uris }, Reply::Flags(result)) => ApiResponse::Contains {
            uris,
            result,
        },
        (ApiRequest::Search { query, serial }, Reply::Search(result)) => ApiResponse::Search {
            query,
            serial,
            result,
        },
        (ApiRequest::SearchCatalogue { query, serial }, Reply::Search(result)) =>
            ApiResponse::Search { query, serial, result },
        (ApiRequest::SearchPlaylists { query, serial }, Reply::Search(found)) => {
            let result = match found {
                Ok(results) => match results.playlists {
                    Some(page) => Ok(page),
                    None => Ok(Page::default()),
                },
                Err(error) => Err(error),
            };
            ApiResponse::SearchPlaylists { query, serial, result }
        },
        (ApiRequest::Artist { id }, Reply::Artist(result)) => ApiResponse::Artist { id, result },
        (ApiRequest::ArtistTopTracks { id }, Reply::TrackList(result)) =>
            ApiResponse::ArtistTopTracks { id, result },
        (ApiRequest::ArtistAlbums { id, groups, offset }, Reply::Albums(result)) =>
            ApiResponse::ArtistAlbums { id, groups, offset, result },
        (ApiRequest::RelatedArtists { id }, Reply::ArtistList(result)) =>
            ApiResponse::RelatedArtists { id, result },
        (ApiRequest::Album { id }, Reply::Album(result)) => ApiResponse::Album { id, result },
        (ApiRequest::AlbumTracks { id, offset, generation }, Reply::Tracks(result)) =>
            ApiResponse::AlbumTracks { id, offset, generation, result },
        (ApiRequest::AlbumQueueTracks { offset, request, .. }, Reply::Tracks(result)) =>
            ApiResponse::AlbumQueueTracks { offset, request, result },
        (ApiRequest::Show { id }, Reply::Show(result)) => ApiResponse::Show { id, result },
        (ApiRequest::ShowEpisodes { id, offset }, Reply::Episodes(result)) =>
            ApiResponse::ShowEpisodes { id, offset, result },
        (ApiRequest::Track { id }, Reply::Track(result)) => ApiResponse::Track { id, result },
        (ApiRequest::Episode { id }, Reply::Episode(result)) => ApiResponse::Episode {
            id,
            result,
        },
        (ApiRequest::Remote { action, .. }, Reply::Done(result)) => ApiResponse::Remote {
            action,
            result,
        },
        (ApiRequest::ShufflePlay { .. }, Reply::Done(result)) => ApiResponse::Remote {
            action: RemoteAction::Play,
            result,
        },
        (ApiRequest::Transfer { device_id, .. }, Reply::Done(result)) =>
            ApiResponse::Transferred { device_id, result },
        (ApiRequest::AddToQueue { label, .. }, Reply::Done(result)) => ApiResponse::QueueAdded {
            label,
            result,
        },
        (ApiRequest::AddManyToQueue { request, .. }, Reply::Appended(added, result)) =>
            ApiResponse::QueueBatchAdded { request, added, result },
        _ => {
            return None;
        },
    };
    Some(response)
}

/// The failed outcome of a request's calls.
pub open spec fn failed_reply(request: ApiRequest, error: ApiError) -> Reply {
    match request {
        ApiRequest::Me => Reply::User(Err(error)),
        ApiRequest::NewReleases { .. } => Reply::Releases(Err(error)),
        ApiRequest::Devices => Reply::Devices(Err(error)),
        ApiRequest::PlaybackState { .. } => Reply::Playback(Err(error)),
        ApiRequest::Queue { .. } => Reply::Queue(Err(error)),
        ApiRequest::RecentlyPlayed { .. } => Reply::History(Err(error)),
        ApiRequest::TopTracks { .. }
        | ApiRequest::AlbumTracks { .. }
        | ApiRequest::AlbumQueueTracks { .. } => Reply::Tracks(Err(error)),
        ApiRequest::TopArtists { .. } => Reply::Artists(Err(error)),
        ApiRequest::Recommendations { .. } | ApiRequest::ArtistTopTracks { .. } =>
            Reply::TrackList(Err(error)),
        ApiRequest::Discover { .. }
        | ApiRequest::Search { .. }
        | ApiRequest::SearchCatalogue { .. }
        | ApiRequest::SearchPlaylists { .. } => Reply::Search(Err(error)),
        ApiRequest::MyPlaylists { .. } => Reply::Playlists(Err(error)),
        ApiRequest::Playlist { .. } | ApiRequest::CreatePlaylist { .. } => Reply::Playlist(
            Err(error),
        ),
        ApiRequest::PlaylistItems { .. } | ApiRequest::PlaylistSample { .. } => Reply::Rows(
            Err(error),
        ),
        ApiRequest::CheckPlaylistDuplicates { .. } => Reply::Duplicates(Err(error)),
        ApiRequest::AddToPlaylist { .. }
        | ApiRequest::RemoveFromPlaylist { .. }
        | ApiRequest::ReorderPlaylist { .. } => Reply::Snapshot(Err(error)),
        ApiRequest::SavedTracks { .. } => Reply::SavedTracks(Err(error)),
        ApiRequest::SavedAlbums { .. } => Reply::SavedAlbums(Err(error)),
        ApiRequest::FollowedArtists { .. } => Reply::Followed(Err(error)),
        ApiRequest::SavedShows { .. } => Reply::SavedShows(Err(error)),
        ApiRequest::SavedEpisodes { .. } => Reply::SavedEpisodes(Err(error)),
        ApiRequest::Contains { .. } => Reply::Flags(Err(error)),
        ApiRequest::Artist { .. } => Reply::Artist(Err(error)),
        ApiRequest::ArtistAlbums { .. } => Reply::Albums(Err(error)),
        ApiRequest::RelatedArtists { .. } => Reply::ArtistList(Err(error)),
        ApiRequest::Album { .. } => Reply::Album(Err(error)),
        ApiRequest::Show { .. } => Reply::Show(Err(error)),
        ApiRequest::ShowEpisodes { .. } => Reply::Episodes(Err(error)),
        ApiRequest::Track { .. } => Reply::Track(Err(error)),
        ApiRequest::Episode { .. } => Reply::Episode(Err(error)),
        ApiRequest::UploadPlaylistCover { .. }
        | ApiRequest::UpdatePlaylist { .. }
        | ApiRequest::FollowPlaylist { .. }
        | ApiRequest::SetSaved { .. }
        | ApiRequest::Remote { .. }
        | ApiRequest::Transfer { .. }
        | ApiRequest::ShufflePlay { .. }
        | ApiRequest::AddToQueue { .. } => Reply::Done(Err(error)),
        ApiRequest::AddManyToQueue { .. } => Reply::Appended(0, Err(error)),
    }
}

/// The failed outcome of a request, before or at its first call.
pub fn refused(request: &ApiRequest, error: ApiError) -> (r: Reply)
    ensures
        r == failed_reply(*request, error),
{
    match request {
        ApiRequest::Me => Reply::User(Err(error)),
        ApiRequest::NewReleases { .. } => Reply::Releases(Err(error)),
        ApiRequest::Devices => Reply::Devices(Err(error)),
        ApiRequest::PlaybackState { .. } => Reply::Playback(Err(error)),
        ApiRequest::Queue { .. } => Reply::Queue(Err(error)),
        ApiRequest::RecentlyPlayed { .. } => Reply::History(Err(error)),
        ApiRequest::TopTracks { .. }
        | ApiRequest::AlbumTracks { .. }
        | ApiRequest::AlbumQueueTracks { .. } => Reply::Tracks(Err(error)),
        ApiRequest::TopArtists { .. } => Reply::Artists(Err(error)),
        ApiRequest::Recommendations { .. } | ApiRequest::ArtistTopTracks { .. } =>
            Reply::TrackList(Err(error)),
        ApiRequest::Discover { .. }
        | ApiRequest::Search { .. }
        | ApiRequest::SearchCatalogue { .. }
        | ApiRequest::SearchPlaylists { .. } => Reply::Search(Err(error)),
        ApiRequest::MyPlaylists { .. } => Reply::Playlists(Err(error)),
        ApiRequest::Playlist { .. } | ApiRequest::CreatePlaylist { .. } => Reply::Playlist(
            Err(error),
        ),
        ApiRequest::PlaylistItems { .. } | ApiRequest::PlaylistSample { .. } => Reply::Rows(
            Err(error),
        ),
        ApiRequest::CheckPlaylistDuplicates { .. } => Reply::Duplicates(Err(error)),
        ApiRequest::AddToPlaylist { .. }
        | ApiRequest::RemoveFromPlaylist { .. }
        | ApiRequest::ReorderPlaylist { .. } => Reply::Snapshot(Err(error)),
        ApiRequest::SavedTracks { .. } => Reply::SavedTracks(Err(error)),
        ApiRequest::SavedAlbums { .. } => Reply::SavedAlbums(Err(error)),
        ApiRequest::FollowedArtists { .. } => Reply::Followed(Err(error)),
        ApiRequest::SavedShows { .. } => Reply::SavedShows(Err(error)),
        ApiRequest::SavedEpisodes { .. } => Reply::SavedEpisodes(Err(error)),
        ApiRequest::Contains { .. } => Reply::Flags(Err(error)),
        ApiRequest::Artist { .. } => Reply::Artist(Err(error)),
        ApiRequest::ArtistAlbums { .. } => Reply::Albums(Err(error)),
        ApiRequest::RelatedArtists { .. } => Reply::ArtistList(Err(error)),
        ApiRequest::Album { .. } => Reply::Album(Err(error)),
        ApiRequest::Show { .. } => Reply::Show(Err(error)),
        ApiRequest::ShowEpisodes { .. } => Reply::Episodes(Err(error)),
        ApiRequest::Track { .. } => Reply::Track(Err(error)),
        ApiRequest::Episode { .. } => Reply::Episode(Err(error)),
        ApiRequest::UploadPlaylistCover { .. }
        | ApiRequest::UpdatePlaylist { .. }
        | ApiRequest::FollowPlaylist { .. }
        | ApiRequest::SetSaved { .. }
        | ApiRequest::Remote { .. }
        | ApiRequest::Transfer { .. }
        | ApiRequest::ShufflePlay { .. }
        | ApiRequest::AddToQueue { .. } => Reply::Done(Err(error)),
        ApiRequest::AddManyToQueue { .. } => Reply::Appended(0, Err(error)),
    }
}

/// The error of a result.
pub open spec fn error_of<T>(result: ApiResult<T>) -> Option<ApiSource> {
    match result {
        Ok(_) => None,
        Err(error) => error.expired_source(),
    }
}

fn expired_in<T>(result: &ApiResult<T>) -> (r: Option<ApiSource>)
    ensures
        r == error_of(*result),
{
    match result {
        Ok(_) => None,
        Err(error) => error.expired(),
    }
}

/// The application whose sign-in the outcome says has expired.
pub open spec fn expired_source(reply: Reply) -> Option<ApiSource> {
    match reply {
        Reply::Done(result) => error_of(result),
        Reply::Snapshot(result) => error_of(result),
        Reply::User(result) => error_of(result),
        Reply::Releases(result) => error_of(result),
        Reply::Devices(result) => error_of(result),
        Reply::Playback(result) => error_of(result),
        Reply::Queue(result) => error_of(result),
        Reply::History(result) => error_of(result),
        Reply::Tracks(result) => error_of(result),
        Reply::TrackList(result) => error_of(result),
        Reply::Artists(result) => error_of(result),
        Reply::ArtistList(result) => error_of(result),
        Reply::Playlists(result) => error_of(result),
        Reply::Playlist(result) => error_of(result),
        Reply::Rows(result) => error_of(result),
        Reply::Duplicates(result) => error_of(result),
        Reply::SavedTracks(result) => error_of(result),
        Reply::SavedAlbums(result) => error_of(result),
        Reply::Followed(result) => error_of(result),
        Reply::SavedShows(result) => error_of(result),
        Reply::SavedEpisodes(result) => error_of(result),
        Reply::Flags(result) => error_of(result),
        Reply::Search(result) => error_of(result),
        Reply::Artist(result) => error_of(result),
        Reply::Albums(result) => error_of(result),
        Reply::Album(result) => error_of(result),
        Reply::Show(result) => error_of(result),
        Reply::Episodes(result) => error_of(result),
        Reply::Track(result) => error_of(result),
        Reply::Episode(result) => error_of(result),
        Reply::Appended(_, result) => error_of(result),
    }
}

/// The application whose sign-in the outcome says has expired.
pub fn expired(reply: &Reply) -> (r: Option<ApiSource>)
    ensures
        r == expired_source(*reply),
{
    match reply {
        Reply::Done(result) => expired_in(result),
        Reply::Snapshot(result) => expired_in(result),
        Reply::User(result) => expired_in(result),
        Reply::Releases(result) => expired_in(result),
        Reply::Devices(result) => expired_in(result),
        Reply::Playback(result) => expired_in(result),
        Reply::Queue(result) => expired_in(result),
        Reply::History(result) => expired_in(result),
        Reply::Tracks(result) => expired_in(result),
        Reply::TrackList(result) => expired_in(result),
        Reply::Artists(result) => expired_in(result),
        Reply::ArtistList(result) => expired_in(result),
        Reply::Playlists(result) => expired_in(result),
        Reply::Playlist(result) => expired_in(result),
        Reply::Rows(result) => expired_in(result),
        Reply::Duplicates(result) => expired_in(result),
        Reply::SavedTracks(result) => expired_in(result),
        Reply::SavedAlbums(result) => expired_in(result),
        Reply::Followed(result) => expired_in(result),
        Reply::SavedShows(result) => expired_in(result),
        Reply::SavedEpisodes(result) => expired_in(result),
        Reply::Flags(result) => expired_in(result),
        Reply::Search(result) => expired_in(result),
        Reply::Artist(result) => expired_in(result),
        Reply::Albums(result) => expired_in(result),
        Reply::Album(result) => expired_in(result),
        Reply::Show(result) => expired_in(result),
        Reply::Episodes(result) => expired_in(result),
        Reply::Track(result) => expired_in(result),
        Reply::Episode(result) => expired_in(result),
        Reply::Appended(_, result) => expired_in(result),
    }
}

/// Ends a request: the answer, the application that has to sign in again, and
/// what the answer shows of playlists. `account` is the one that was signed in
/// when the request was sent.
pub fn handle(
    api: &mut Gateway,
    request: ApiRequest,
    account: Option<AccountId>,
    reply: Reply,
) -> (r: Option<(ApiResponse, Option<ApiSource>)>)
    requires
        old(api).wf(),
    ensures
        final(api).wf(),
        final(api).shared == old(api).shared,
        final(api).personal == old(api).personal,
        match r {
            Some((response, expired)) => {
                &&& answers(request, reply, account, response)
                &&& expired == expired_source(reply)
                &&& forall|id: Seq<char>| #[trigger]
                    final(api).access.of(id) == access_seen(*old(api), response, id)
            },
            None => {
                &&& forall|response: ApiResponse|
                    !answers(request, reply, account, response)
                &&& *final(api) == *old(api)
            },
        },
{
    let source = expired(&reply);
    match respond(request, reply, account) {
        None => None,
        Some(response) => {
            observe_playlists(api, &response);
            Some((response, source))
        },
    }
}

/// Whatever the request, its refusal asks for a new sign-in exactly when the
/// error says that one has expired, and of the application that the error
/// names.
pub proof fn a_refusal_names_the_expired_application(request: ApiRequest, error: ApiError)
    ensures
        expired_source(failed_reply(request, error)) == error.expired_source(),
{
}

} // verus!
