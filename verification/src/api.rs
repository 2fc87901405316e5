//! What the interface asks of Spotify, and the answers it gets.

use std::sync::Arc;

use vstd::prelude::*;

use crate::error::ApiResult;
use crate::models::{
    Album, Artist, CursorPage, Device, Episode, Page, PlayHistory, PlayableItem, PlaybackState,
    Playlist, PlaylistItem, Queue, SavedAlbum, SavedEpisode, SavedShow, SavedTrack, SearchResults,
    Show, Track, User,
};
use crate::releases::ReleaseArtistSource;
use crate::request::PlayRequest;

verus! {

/// How many rows of a playlist are asked for at once.
pub const PLAYLIST_PAGE_SIZE: u32 = 50;

#[derive(Clone, Copy, Debug, PartialEq, Eq, Structural)]
pub enum RemoteAction {
    Play,
    Pause,
    Next,
    Previous,
    Seek,
    Volume,
    Shuffle,
    Repeat,
}

/// Which of the two readers of the recently-played list an answer belongs to:
/// the shelf on Home, or the Recents tab in the queue panel.
#[derive(Clone, Copy, Debug, PartialEq, Eq, Structural)]
pub enum RecentsFor {
    Home,
    Panel,
}

/// A picture chosen for a playlist.
#[derive(Clone, Debug, PartialEq, Eq)]
pub struct Cover {
    pub jpeg: Arc<Vec<u8>>,
    /// The picture as base64.
    pub encoded: String,
    pub uri: String,
}

#[allow(inconsistent_fields)]
#[derive(Clone, Debug, PartialEq, Eq)]
pub enum ApiRequest {
    Me,
    NewReleases {
        days: u16,
        artist_sources: Vec<ReleaseArtistSource>,
        minimum_liked_tracks: u16,
        force_refresh: bool,
        generation: u64,
    },
    Devices,
    PlaybackState { seq: u64 },
    Queue { seq: u64 },
    RecentlyPlayed {
        /// Home and Recents count their requests separately, so the count
        /// alone cannot say whose answer it is.
        who: RecentsFor,
        generation: u64,
        before: Option<String>,
        limit: u32,
    },
    TopTracks { offset: u32, full: bool, generation: u64 },
    TopArtists { generation: u64 },
    Recommendations { seed_tracks: Vec<String>, seed_artists: Vec<String>, generation: u64 },
    Discover { term: String, generation: u64 },
    MyPlaylists { offset: u32 },
    Playlist { id: String, generation: u64 },
    PlaylistItems { id: String, offset: u32, generation: u64 },
    /// Rows of a playlist read only for who added its songs.
    PlaylistSample { id: String, offset: u32, generation: u64 },
    CreatePlaylist { name: String, public: bool, description: String },
    UploadPlaylistCover { id: String, request: u64, previous_urls: Vec<String>, cover: Cover },
    UpdatePlaylist {
        id: String,
        name: Option<String>,
        description: Option<String>,
        public: Option<bool>,
    },
    CheckPlaylistDuplicates {
        playlist_id: String,
        playlist_name: String,
        items: Vec<PlayableItem>,
        position: Option<u32>,
    },
    AddToPlaylist {
        playlist_id: String,
        playlist_name: String,
        uris: Vec<String>,
        position: Option<u32>,
    },
    RemoveFromPlaylist { playlist_id: String, uris: Vec<String>, snapshot_id: Option<String> },
    ReorderPlaylist {
        playlist_id: String,
        range_start: u32,
        insert_before: u32,
        snapshot_id: Option<String>,
    },
    FollowPlaylist { id: String, follow: bool },
    SavedTracks { offset: u32, generation: u64 },
    SavedAlbums { offset: u32 },
    FollowedArtists { after: Option<String> },
    SavedShows { offset: u32 },
    SavedEpisodes { offset: u32 },
    SetSaved { uris: Vec<String>, saved: bool },
    Contains { uris: Vec<String> },
    Search { query: String, serial: u64 },
    SearchCatalogue { query: String, serial: u64 },
    SearchPlaylists { query: String, serial: u64 },
    Artist { id: String },
    ArtistTopTracks { id: String },
    ArtistAlbums { id: String, groups: String, offset: u32 },
    RelatedArtists { id: String },
    Album { id: String },
    AlbumTracks { id: String, offset: u32, generation: u64 },
    AlbumQueueTracks { id: String, offset: u32, request: u64 },
    Show { id: String },
    ShowEpisodes { id: String, offset: u32 },
    Track { id: String },
    /// One episode, asked for by a link to it.
    Episode { id: String },
    Remote {
        action: RemoteAction,
        device_id: Option<String>,
        play: Option<PlayRequest>,
        position_ms: u32,
        percent: u8,
        flag: bool,
        repeat: String,
    },
    Transfer { device_id: String, play: bool },
    /// Shuffle on, then start the context, one after the other.
    ShufflePlay { device_id: Option<String>, play: PlayRequest },
    AddToQueue { uri: String, device_id: Option<String>, label: String },
    AddManyToQueue { request: u64, uris: Vec<String>, device_id: Option<String> },
}

impl ApiRequest {
    /// Requests that nobody is waiting for, of which only a few run at a time.
    pub open spec fn background_spec(self) -> bool {
        ||| self is NewReleases
        ||| self is PlaybackState
        ||| self is RecentlyPlayed
        ||| self is TopTracks
        ||| self is TopArtists
        ||| self is Recommendations
        ||| self is Discover
        ||| self is MyPlaylists
        ||| self is PlaylistSample
        ||| self is Contains
    }

    pub fn background(&self) -> (r: bool)
        ensures
            r == self.background_spec(),
    {
        match self {
            ApiRequest::NewReleases { .. }
            | ApiRequest::PlaybackState { .. }
            | ApiRequest::RecentlyPlayed { .. }
            | ApiRequest::TopTracks { .. }
            | ApiRequest::TopArtists { .. }
            | ApiRequest::Recommendations { .. }
            | ApiRequest::Discover { .. }
            | ApiRequest::MyPlaylists { .. }
            | ApiRequest::PlaylistSample { .. }
            | ApiRequest::Contains { .. } => true,
            _ => false,
        }
    }
}

#[allow(inconsistent_fields)]
#[derive(Debug, PartialEq, Eq)]
pub enum ApiResponse {
    Me(ApiResult<User>),
    NewReleases { generation: u64, result: ApiResult<Vec<Album>> },
    Devices(ApiResult<Vec<Device>>),
    PlaybackState { seq: u64, result: ApiResult<Option<PlaybackState>> },
    Queue { seq: u64, result: ApiResult<Queue> },
    RecentlyPlayed {
        who: RecentsFor,
        generation: u64,
        limit: u32,
        result: ApiResult<CursorPage<PlayHistory>>,
    },
    TopTracks { offset: u32, full: bool, generation: u64, result: ApiResult<Page<Track>> },
    TopArtists { generation: u64, result: ApiResult<Vec<Artist>> },
    Recommendations { generation: u64, result: ApiResult<Vec<Track>> },
    Discover { term: String, generation: u64, result: ApiResult<Vec<Playlist>> },
    MyPlaylists { offset: u32, result: ApiResult<Page<Playlist>> },
    Playlist { id: String, generation: u64, result: ApiResult<Playlist> },
    PlaylistItems {
        id: String,
        offset: u32,
        generation: u64,
        result: ApiResult<Page<PlaylistItem>>,
    },
    PlaylistSample { id: String, generation: u64, result: ApiResult<Page<PlaylistItem>> },
    PlaylistCreated(ApiResult<Playlist>),
    PlaylistCoverUploaded {
        id: String,
        request: u64,
        previous_urls: Vec<String>,
        cover: Cover,
        result: ApiResult<()>,
    },
    PlaylistUpdated { id: String, result: ApiResult<()> },
    PlaylistDuplicatesChecked {
        playlist_id: String,
        playlist_name: String,
        items: Vec<PlayableItem>,
        position: Option<u32>,
        result: ApiResult<Vec<String>>,
    },
    PlaylistItemsChanged { id: String, message: String, result: ApiResult<Option<String>> },
    PlaylistFollowChanged { id: String, followed: bool, result: ApiResult<()> },
    SavedTracks {
        offset: u32,
        generation: u64,
        account_id: Option<String>,
        result: ApiResult<Page<SavedTrack>>,
    },
    SavedAlbums { offset: u32, result: ApiResult<Page<SavedAlbum>> },
    FollowedArtists { after: Option<String>, result: ApiResult<CursorPage<Artist>> },
    SavedShows { offset: u32, result: ApiResult<Page<SavedShow>> },
    SavedEpisodes { offset: u32, result: ApiResult<Page<SavedEpisode>> },
    SavedChanged { uris: Vec<String>, saved: bool, result: ApiResult<()> },
    Contains { uris: Vec<String>, result: ApiResult<Vec<bool>> },
    SearchStarted { query: String, serial: u64, split: bool },
    Search { query: String, serial: u64, result: ApiResult<SearchResults> },
    SearchPlaylists { query: String, serial: u64, result: ApiResult<Page<Playlist>> },
    Artist { id: String, result: ApiResult<Artist> },
    ArtistTopTracks { id: String, result: ApiResult<Vec<Track>> },
    ArtistAlbums { id: String, groups: String, offset: u32, result: ApiResult<Page<Album>> },
    RelatedArtists { id: String, result: ApiResult<Vec<Artist>> },
    Album { id: String, result: ApiResult<Album> },
    AlbumTracks { id: String, offset: u32, generation: u64, result: ApiResult<Page<Track>> },
    AlbumQueueTracks { offset: u32, request: u64, result: ApiResult<Page<Track>> },
    Show { id: String, result: ApiResult<Show> },
    ShowEpisodes { id: String, offset: u32, result: ApiResult<Page<Episode>> },
    Track { id: String, result: ApiResult<Track> },
    Episode { id: String, result: ApiResult<Episode> },
    Remote { action: RemoteAction, result: ApiResult<()> },
    Transferred { device_id: String, result: ApiResult<()> },
    QueueAdded { label: String, result: ApiResult<()> },
    QueueBatchAdded { request: u64, added: usize, result: ApiResult<()> },
}

} // verus!
