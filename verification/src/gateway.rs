//! The two Web API sessions of one account, and what is known of its
//! playlists.

use vstd::prelude::*;

use crate::api::{ApiRequest, ApiResponse};
use crate::error::{ApiError, ApiSource};
use crate::models::Playlist;
use crate::sets::TextSet;
use crate::text::{has_prefix, same_text, starts_with};

verus! {

/// A Spotify account.
#[derive(Debug, PartialEq, Eq)]
pub struct AccountId {
    pub id: String,
}

impl Clone for AccountId {
    fn clone(&self) -> (r: Self)
        ensures
            r == *self,
    {
        AccountId { id: self.id.clone() }
    }
}

impl AccountId {
    pub fn new(id: &str) -> (r: AccountId)
        ensures
            r.id@ == id@,
    {
        AccountId { id: id.to_owned() }
    }

    pub fn as_str(&self) -> (r: &str)
        ensures
            r@ == self.id@,
    {
        self.id.as_str()
    }
}

/// How far the sign-in of one application has come.
#[derive(Debug, PartialEq, Eq)]
pub enum SessionState {
    Unavailable,
    Authorizing,
    Ready { account: AccountId },
}

/// What an account may do with a playlist.
#[derive(Clone, Copy, Debug, PartialEq, Eq, Structural)]
pub enum PlaylistAccess {
    Unknown,
    Owned,
    Collaborative,
    Foreign,
}

/// What a request is about, which decides the session that serves it.
#[derive(Clone, Copy, Debug, PartialEq, Eq, Structural)]
pub enum Operation {
    CanonicalAccount,
    UserData,
    Playback,
    PlaylistLibrary,
    PlaylistCreation,
    PlaylistSearch,
    CatalogSearch,
    PlaylistMetadata(PlaylistAccess),
    PlaylistItems(PlaylistAccess),
    PlaylistMutation(PlaylistAccess),
    Catalog,
    UnsupportedDevelopmentMode,
}

/// The access to playlists that answers have shown.
pub struct AccessTable {
    ids: TextSet,
    access: Vec<PlaylistAccess>,
}

impl AccessTable {
    pub closed spec fn wf(&self) -> bool {
        &&& self.ids.wf()
        &&& self.access@.len() == self.ids.list().len()
    }

    /// The access to a playlist, as far as it was seen.
    pub closed spec fn of(&self, id: Seq<char>) -> PlaylistAccess {
        if self.ids.list().contains(id) {
            self.access@[self.ids.list().index_of(id)]
        } else {
            PlaylistAccess::Unknown
        }
    }

    pub fn new() -> (r: AccessTable)
        ensures
            r.wf(),
            forall|id: Seq<char>| #[trigger] r.of(id) == PlaylistAccess::Unknown,
    {
        AccessTable { ids: TextSet::new(), access: Vec::new() }
    }

    pub fn get(&self, id: &str) -> (r: PlaylistAccess)
        requires
            self.wf(),
        ensures
            r == self.of(id@),
    {
        let ghost list = self.ids.list();
        let mut i: usize = 0;
        while i < self.ids.len()
            invariant
                self.wf(),
                list == self.ids.list(),
                i <= list.len(),
                forall|k: int| 0 <= k < i ==> #[trigger] list[k] != id@,
            decreases list.len() - i,
        {
            if same_text(self.ids.get(i).as_str(), id) {
                proof {
                    let k = list.index_of(id@);
                    assert(list[k] == id@);
                    assert(k == i);
                }
                return self.access[i];
            }
            i += 1;
        }
        PlaylistAccess::Unknown
    }

    /// Remembers the access to a playlist.
    pub fn set(&mut self, id: &str, access: PlaylistAccess)
        requires
            old(self).wf(),
        ensures
            final(self).wf(),
            forall|other: Seq<char>| #[trigger]
                final(self).of(other) == if other == id@ {
                    access
                } else {
                    old(self).of(other)
                },
    {
        let ghost before = self.ids.list();
        let mut i: usize = 0;
        while i < self.ids.len()
            invariant
                *self == *old(self),
                self.wf(),
                before == self.ids.list(),
                i <= before.len(),
                forall|k: int| 0 <= k < i ==> #[trigger] before[k] != id@,
            decreases before.len() - i,
        {
            if same_text(self.ids.get(i).as_str(), id) {
                self.access.set(i, access);
                proof {
                    assert forall|other: Seq<char>| #[trigger]
                        self.of(other) == if other == id@ {
                            access
                        } else {
                            old(self).of(other)
                        } by {
                        if before.contains(other) {
                            let k = before.index_of(other);
                            assert(before[k] == other);
                        }
                        assert(before[i as int] == id@);
                    }
                }
                return;
            }
            i += 1;
        }
        self.ids.insert(id.to_owned());
        self.access.push(access);
        proof {
            assert(!before.contains(id@));
            let after = self.ids.list();
            assert(after == before.push(id@));
            assert forall|other: Seq<char>| #[trigger]
                self.of(other) == if other == id@ {
                    access
                } else {
                    old(self).of(other)
                } by {
                if other == id@ {
                    assert(after[before.len() as int] == id@);
                    let k = after.index_of(id@);
                    assert(after[k] == id@);
                    assert(k == before.len());
                } else if before.contains(other) {
                    let k = before.index_of(other);
                    assert(after[k] == other);
                    let m = after.index_of(other);
                    assert(after[m] == other);
                    assert(m == k);
                } else if after.contains(other) {
                    let m = after.index_of(other);
                    assert(after[m] == other);
                    assert(m < before.len());
                    assert(before[m] == other);
                }
            }
        }
    }
}

/// The sessions of the two registered applications.
pub struct Gateway {
    pub shared: SessionState,
    pub personal: SessionState,
    pub access: AccessTable,
}

/// Which session takes a request.
#[derive(Clone, Copy, Debug, PartialEq, Eq, Structural)]
pub enum Route {
    Use(ApiSource),
    /// The session is being signed in; the request waits for it.
    Wait,
    NotSignedIn,
}

/// The account of a session that is ready.
pub open spec fn ready_account(state: SessionState) -> Option<AccountId> {
    match state {
        SessionState::Ready { account } => Some(account),
        _ => None,
    }
}

/// The application other than this one.
pub open spec fn other_source(source: ApiSource) -> ApiSource {
    match source {
        ApiSource::Shared => ApiSource::Personal,
        ApiSource::Personal => ApiSource::Shared,
    }
}

/// The account behind two sessions: that of the shared one, else that of the
/// personal one.
pub open spec fn account_of(shared: SessionState, personal: SessionState) -> Option<AccountId> {
    match ready_account(shared) {
        Some(account) => Some(account),
        None => ready_account(personal),
    }
}

/// Whether an account may be installed next to the state of the other session.
pub open spec fn may_install(other: SessionState, account: AccountId) -> bool {
    match ready_account(other) {
        Some(held) => held.id@ == account.id@,
        None => true,
    }
}

impl Gateway {
    pub open spec fn state_spec(self, source: ApiSource) -> SessionState {
        match source {
            ApiSource::Shared => self.shared,
            ApiSource::Personal => self.personal,
        }
    }

    pub open spec fn account_spec(self) -> Option<AccountId> {
        account_of(self.shared, self.personal)
    }

    pub open spec fn wf(&self) -> bool {
        self.access.wf()
    }

    pub fn new() -> (r: Gateway)
        ensures
            r.wf(),
            r.shared is Unavailable,
            r.personal is Unavailable,
            forall|id: Seq<char>| #[trigger] r.access.of(id) == PlaylistAccess::Unknown,
    {
        Gateway {
            shared: SessionState::Unavailable,
            personal: SessionState::Unavailable,
            access: AccessTable::new(),
        }
    }

    pub fn state(&self, source: ApiSource) -> (r: &SessionState)
        ensures
            *r == self.state_spec(source),
    {
        match source {
            ApiSource::Shared => &self.shared,
            ApiSource::Personal => &self.personal,
        }
    }

    pub fn authorizing(&self, source: ApiSource) -> (r: bool)
        ensures
            r == self.state_spec(source) is Authorizing,
    {
        match self.state(source) {
            SessionState::Authorizing => true,
            _ => false,
        }
    }

    pub fn ready(&self, source: ApiSource) -> (r: bool)
        ensures
            r == self.state_spec(source) is Ready,
    {
        match self.state(source) {
            SessionState::Ready { .. } => true,
            _ => false,
        }
    }

    pub fn personal_ready(&self) -> (r: bool)
        ensures
            r == self.personal is Ready,
    {
        self.ready(ApiSource::Personal)
    }

    pub fn set_state(&mut self, source: ApiSource, state: SessionState)
        ensures
            *final(self) == match source {
                ApiSource::Shared => Gateway { shared: state, ..*old(self) },
                ApiSource::Personal => Gateway { personal: state, ..*old(self) },
            },
    {
        match source {
            ApiSource::Shared => {
                self.shared = state;
            },
            ApiSource::Personal => {
                self.personal = state;
            },
        }
    }

    /// Forgets the sign-in of one application.
    pub fn clear(&mut self, source: ApiSource)
        ensures
            *final(self) == match source {
                ApiSource::Shared => Gateway { shared: SessionState::Unavailable, ..*old(self) },
                ApiSource::Personal => Gateway {
                    personal: SessionState::Unavailable,
                    ..*old(self)
                },
            },
    {
        self.set_state(source, SessionState::Unavailable);
    }

    /// Forgets the account and what was known of its playlists.
    pub fn clear_all(&mut self)
        ensures
            final(self).wf(),
            final(self).shared is Unavailable,
            final(self).personal is Unavailable,
            forall|id: Seq<char>| #[trigger] final(self).access.of(id) == PlaylistAccess::Unknown,
    {
        self.shared = SessionState::Unavailable;
        self.personal = SessionState::Unavailable;
        self.access = AccessTable::new();
    }

    /// The verified account.
    pub fn account(&self) -> (r: Option<AccountId>)
        ensures
            r == self.account_spec(),
    {
        match &self.shared {
            SessionState::Ready { account } => Some(account.clone()),
            _ => match &self.personal {
                SessionState::Ready { account } => Some(account.clone()),
                _ => None,
            },
        }
    }

    /// Makes a session ready for an account. False, and nothing changes, when
    /// the other session is another account's.
    pub fn install(&mut self, source: ApiSource, account: AccountId) -> (installed: bool)
        ensures
            installed == may_install(old(self).state_spec(other_source(source)), account),
            *final(self) == if installed {
                match source {
                    ApiSource::Shared => Gateway {
                        shared: SessionState::Ready { account },
                        ..*old(self)
                    },
                    ApiSource::Personal => Gateway {
                        personal: SessionState::Ready { account },
                        ..*old(self)
                    },
                }
            } else {
                *old(self)
            },
    {
        let other = match source {
            ApiSource::Shared => &self.personal,
            ApiSource::Personal => &self.shared,
        };
        let fits = match other {
            SessionState::Ready { account: held } => same_text(held.as_str(), account.as_str()),
            _ => true,
        };
        if fits {
            self.set_state(source, SessionState::Ready { account });
        }
        fits
    }

    // ---- routing -----------------------------------------------------------------

    /// The application that serves an operation. The personal one serves what
    /// a new registration may do: not the complete playlist library, nor other
    /// people's playlists, nor what such registrations are denied.
    pub open spec fn source_for_spec(personal_ready: bool, operation: Operation) -> ApiSource {
        let personal = match operation {
            Operation::UserData
            | Operation::Playback
            | Operation::PlaylistCreation
            | Operation::CatalogSearch
            | Operation::Catalog => true,
            Operation::PlaylistMetadata(access)
            | Operation::PlaylistItems(access)
            | Operation::PlaylistMutation(access) => access == PlaylistAccess::Owned || access
                == PlaylistAccess::Collaborative,
            Operation::CanonicalAccount
            | Operation::PlaylistLibrary
            | Operation::PlaylistSearch
            | Operation::UnsupportedDevelopmentMode => false,
        };
        if personal_ready && personal {
            ApiSource::Personal
        } else {
            ApiSource::Shared
        }
    }

    pub fn source_for(&self, operation: Operation) -> (r: ApiSource)
        ensures
            r == Self::source_for_spec(self.personal is Ready, operation),
    {
        let personal = match operation {
            Operation::UserData
            | Operation::Playback
            | Operation::PlaylistCreation
            | Operation::CatalogSearch
            | Operation::Catalog => true,
            Operation::PlaylistMetadata(access)
            | Operation::PlaylistItems(access)
            | Operation::PlaylistMutation(access) => access == PlaylistAccess::Owned || access
                == PlaylistAccess::Collaborative,
            Operation::CanonicalAccount
            | Operation::PlaylistLibrary
            | Operation::PlaylistSearch
            | Operation::UnsupportedDevelopmentMode => false,
        };
        if self.personal_ready() && personal {
            ApiSource::Personal
        } else {
            ApiSource::Shared
        }
    }

    /// Which session takes an operation now.
    pub fn client_for(&self, operation: Operation) -> (r: Route)
        ensures
            r == ({
                let source = Self::source_for_spec(self.personal is Ready, operation);
                match self.state_spec(source) {
                    SessionState::Ready { .. } => Route::Use(source),
                    SessionState::Authorizing => Route::Wait,
                    SessionState::Unavailable => Route::NotSignedIn,
                }
            }),
    {
        let source = self.source_for(operation);
        match self.state(source) {
            SessionState::Ready { .. } => Route::Use(source),
            SessionState::Authorizing => Route::Wait,
            SessionState::Unavailable => Route::NotSignedIn,
        }
    }

    /// Whether the streaming session may answer in place of the Web API: the
    /// playlist reads that the shared application would otherwise serve.
    pub fn session_serves(&self, operation: Operation) -> (r: bool)
        ensures
            r == ((operation is PlaylistMetadata || operation is PlaylistItems)
                && Self::source_for_spec(self.personal is Ready, operation) == ApiSource::Shared),
    {
        let reads = match operation {
            Operation::PlaylistMetadata(_) | Operation::PlaylistItems(_) => true,
            _ => false,
        };
        reads && self.source_for(operation) == ApiSource::Shared
    }

    // ---- playlists ---------------------------------------------------------------

    /// The access that an answer shows to a playlist.
    pub open spec fn shown_access(self, playlist: Playlist) -> PlaylistAccess {
        if self.account_spec() is Some && playlist.owner.id is Some && playlist.owner.id->0@
            == self.account_spec()->0.id@ {
            PlaylistAccess::Owned
        } else if playlist.collaborative {
            PlaylistAccess::Collaborative
        } else {
            PlaylistAccess::Foreign
        }
    }

    pub fn playlist_access(&self, id: &str) -> (r: PlaylistAccess)
        requires
            self.wf(),
        ensures
            r == self.access.of(id@),
    {
        self.access.get(id)
    }

    /// Learns from an answer what the account may do with a playlist.
    pub fn observe_playlist(&mut self, playlist: &Playlist)
        requires
            old(self).wf(),
        ensures
            final(self).wf(),
            final(self).shared == old(self).shared,
            final(self).personal == old(self).personal,
            forall|id: Seq<char>| #[trigger]
                final(self).access.of(id) == if id == playlist.id@ {
                    old(self).shown_access(*playlist)
                } else {
                    old(self).access.of(id)
                },
    {
        let owned = match (self.account(), &playlist.owner.id) {
            (Some(account), Some(owner)) => same_text(owner.as_str(), account.as_str()),
            _ => false,
        };
        let access = if owned {
            PlaylistAccess::Owned
        } else if playlist.collaborative {
            PlaylistAccess::Collaborative
        } else {
            PlaylistAccess::Foreign
        };
        self.access.set(playlist.id.as_str(), access);
    }

    /// The access to a playlist once answers about some have been seen.
    pub open spec fn access_after(
        self,
        playlists: Seq<Playlist>,
        id: Seq<char>,
    ) -> PlaylistAccess
        decreases playlists.len(),
    {
        if playlists.len() == 0 {
            self.access.of(id)
        } else if playlists.last().id@ == id {
            self.shown_access(playlists.last())
        } else {
            self.access_after(playlists.drop_last(), id)
        }
    }

    pub fn observe_playlists(&mut self, playlists: &Vec<Playlist>)
        requires
            old(self).wf(),
        ensures
            final(self).wf(),
            final(self).shared == old(self).shared,
            final(self).personal == old(self).personal,
            forall|id: Seq<char>| #[trigger]
                final(self).access.of(id) == old(self).access_after(playlists@, id),
    {
        let mut i: usize = 0;
        assert(playlists@.take(0) =~= Seq::<Playlist>::empty());
        while i < playlists.len()
            invariant
                i <= playlists@.len(),
                self.wf(),
                self.shared == old(self).shared,
                self.personal == old(self).personal,
                forall|id: Seq<char>| #[trigger]
                    self.access.of(id) == old(self).access_after(playlists@.take(i as int), id),
            decreases playlists.len() - i,
        {
            assert(playlists@.take(i + 1).drop_last() =~= playlists@.take(i as int));
            self.observe_playlist(&playlists[i]);
            i += 1;
        }
        assert(playlists@.take(i as int) =~= playlists@);
    }

    /// Forgets what was known of a playlist.
    pub fn invalidate_playlist_access(&mut self, id: &str)
        requires
            old(self).wf(),
        ensures
            final(self).wf(),
            final(self).shared == old(self).shared,
            final(self).personal == old(self).personal,
            forall|other: Seq<char>| #[trigger]
                final(self).access.of(other) == if other == id@ {
                    PlaylistAccess::Unknown
                } else {
                    old(self).access.of(other)
                },
    {
        self.access.set(id, PlaylistAccess::Unknown);
    }
}

/// Whether the sessions that are ready are of one account.
pub open spec fn one_account(shared: SessionState, personal: SessionState) -> bool {
    match (ready_account(shared), ready_account(personal)) {
        (Some(a), Some(b)) => a.id@ == b.id@,
        _ => true,
    }
}

/// Two ready sessions are always of one account: an account that differs from
/// the other session's is not installed, and one that is installed keeps the
/// account that both are of.
pub proof fn sessions_share_one_account(
    shared: SessionState,
    personal: SessionState,
    account: AccountId,
)
    requires
        one_account(shared, personal),
    ensures
        may_install(personal, account) == one_account(SessionState::Ready { account }, personal),
        may_install(shared, account) == one_account(shared, SessionState::Ready { account }),
        one_account(SessionState::Unavailable, personal),
        one_account(shared, SessionState::Unavailable),
        one_account(SessionState::Authorizing, personal),
        one_account(shared, SessionState::Authorizing),
{
}

// ---- what a request is about -----------------------------------------------------

/// Whether a playlist is the account's to edit.
pub open spec fn may_edit(access: PlaylistAccess) -> bool {
    access == PlaylistAccess::Owned || access == PlaylistAccess::Collaborative
}

/// Whether one of the things named is a playlist.
pub open spec fn names_a_playlist(uris: Seq<String>) -> bool {
    exists|i: int| 0 <= i < uris.len() && has_prefix((#[trigger] uris[i])@, "spotify:playlist:"@)
}

fn mentions_playlist(uris: &Vec<String>) -> (r: bool)
    ensures
        r == names_a_playlist(uris@),
{
    let mut i: usize = 0;
    while i < uris.len()
        invariant
            i <= uris@.len(),
            forall|k: int|
                0 <= k < i ==> !has_prefix((#[trigger] uris@[k])@, "spotify:playlist:"@),
        decreases uris.len() - i,
    {
        if starts_with(uris[i].as_str(), "spotify:playlist:") {
            return true;
        }
        i += 1;
    }
    false
}

/// What a request is about.
pub open spec fn operation_spec(access: AccessTable, request: ApiRequest) -> Operation {
    match request {
        ApiRequest::Me => Operation::CanonicalAccount,
        ApiRequest::NewReleases { .. } => Operation::UserData,
        ApiRequest::Devices
        | ApiRequest::PlaybackState { .. }
        | ApiRequest::Queue { .. }
        | ApiRequest::Remote { .. }
        | ApiRequest::Transfer { .. }
        | ApiRequest::ShufflePlay { .. }
        | ApiRequest::AddToQueue { .. }
        | ApiRequest::AddManyToQueue { .. } => Operation::Playback,
        ApiRequest::RecentlyPlayed { .. }
        | ApiRequest::TopTracks { .. }
        | ApiRequest::TopArtists { .. }
        | ApiRequest::SavedTracks { .. }
        | ApiRequest::SavedAlbums { .. }
        | ApiRequest::FollowedArtists { .. }
        | ApiRequest::SavedShows { .. }
        | ApiRequest::SavedEpisodes { .. }
        | ApiRequest::SetSaved { .. } => Operation::UserData,
        ApiRequest::Contains { uris } => if names_a_playlist(uris@) {
            Operation::UnsupportedDevelopmentMode
        } else {
            Operation::UserData
        },
        ApiRequest::MyPlaylists { .. } => Operation::PlaylistLibrary,
        ApiRequest::CreatePlaylist { .. } => Operation::PlaylistCreation,
        ApiRequest::Discover { .. } | ApiRequest::SearchPlaylists { .. } =>
            Operation::PlaylistSearch,
        ApiRequest::SearchCatalogue { .. } => Operation::CatalogSearch,
        ApiRequest::Search { .. } => Operation::PlaylistSearch,
        ApiRequest::Playlist { id, .. } => Operation::PlaylistMetadata(access.of(id@)),
        ApiRequest::PlaylistItems { id, .. } => Operation::PlaylistItems(access.of(id@)),
        ApiRequest::PlaylistSample { id, .. } => Operation::PlaylistItems(access.of(id@)),
        ApiRequest::CheckPlaylistDuplicates { playlist_id, .. } => Operation::PlaylistItems(
            access.of(playlist_id@),
        ),
        ApiRequest::UploadPlaylistCover { id, .. } => Operation::PlaylistMutation(access.of(id@)),
        ApiRequest::UpdatePlaylist { id, .. } => Operation::PlaylistMutation(access.of(id@)),
        ApiRequest::FollowPlaylist { id, .. } => Operation::PlaylistMutation(access.of(id@)),
        ApiRequest::AddToPlaylist { playlist_id, .. } => Operation::PlaylistMutation(
            access.of(playlist_id@),
        ),
        ApiRequest::RemoveFromPlaylist { playlist_id, .. } => Operation::PlaylistMutation(
            access.of(playlist_id@),
        ),
        ApiRequest::ReorderPlaylist { playlist_id, .. } => Operation::PlaylistMutation(
            access.of(playlist_id@),
        ),
        ApiRequest::Recommendations { .. }
        | ApiRequest::ArtistTopTracks { .. }
        | ApiRequest::RelatedArtists { .. } => Operation::UnsupportedDevelopmentMode,
        ApiRequest::Artist { .. }
        | ApiRequest::ArtistAlbums { .. }
        | ApiRequest::Album { .. }
        | ApiRequest::AlbumTracks { .. }
        | ApiRequest::AlbumQueueTracks { .. }
        | ApiRequest::Show { .. }
        | ApiRequest::ShowEpisodes { .. }
        | ApiRequest::Track { .. }
        | ApiRequest::Episode { .. } => Operation::Catalog,
    }
}

/// What a request is about. A new registration cannot answer whether a
/// playlist is in the library when it does not list it, so such a question is
/// not one of plain user data.
pub fn operation_for(api: &Gateway, request: &ApiRequest) -> (r: Operation)
    requires
        api.wf(),
    ensures
        r == operation_spec(api.access, *request),
{
    match request {
        ApiRequest::Me => Operation::CanonicalAccount,
        ApiRequest::NewReleases { .. } => Operation::UserData,
        ApiRequest::Devices
        | ApiRequest::PlaybackState { .. }
        | ApiRequest::Queue { .. }
        | ApiRequest::Remote { .. }
        | ApiRequest::Transfer { .. }
        | ApiRequest::ShufflePlay { .. }
        | ApiRequest::AddToQueue { .. }
        | ApiRequest::AddManyToQueue { .. } => Operation::Playback,
        ApiRequest::RecentlyPlayed { .. }
        | ApiRequest::TopTracks { .. }
        | ApiRequest::TopArtists { .. }
        | ApiRequest::SavedTracks { .. }
        | ApiRequest::SavedAlbums { .. }
        | ApiRequest::FollowedArtists { .. }
        | ApiRequest::SavedShows { .. }
        | ApiRequest::SavedEpisodes { .. }
        | ApiRequest::SetSaved { .. } => Operation::UserData,
        ApiRequest::Contains { uris } => {
            if mentions_playlist(uris) {
                Operation::UnsupportedDevelopmentMode
            } else {
                Operation::UserData
            }
        },
        ApiRequest::MyPlaylists { .. } => Operation::PlaylistLibrary,
        ApiRequest::CreatePlaylist { .. } => Operation::PlaylistCreation,
        ApiRequest::Discover { .. } | ApiRequest::SearchPlaylists { .. } =>
            Operation::PlaylistSearch,
        ApiRequest::SearchCatalogue { .. } => Operation::CatalogSearch,
        ApiRequest::Search { .. } => Operation::PlaylistSearch,
        ApiRequest::Playlist { id, .. } => Operation::PlaylistMetadata(
            api.playlist_access(id.as_str()),
        ),
        ApiRequest::PlaylistItems { id, .. }
        | ApiRequest::PlaylistSample { id, .. }
        | ApiRequest::CheckPlaylistDuplicates { playlist_id: id, .. } => Operation::PlaylistItems(
            api.playlist_access(id.as_str()),
        ),
        ApiRequest::UploadPlaylistCover { id, .. }
        | ApiRequest::UpdatePlaylist { id, .. }
        | ApiRequest::FollowPlaylist { id, .. }
        | ApiRequest::AddToPlaylist { playlist_id: id, .. }
        | ApiRequest::RemoveFromPlaylist { playlist_id: id, .. }
        | ApiRequest::ReorderPlaylist { playlist_id: id, .. } => Operation::PlaylistMutation(
            api.playlist_access(id.as_str()),
        ),
        ApiRequest::Recommendations { .. }
        | ApiRequest::ArtistTopTracks { .. }
        | ApiRequest::RelatedArtists { .. } => Operation::UnsupportedDevelopmentMode,
        ApiRequest::Artist { .. }
        | ApiRequest::ArtistAlbums { .. }
        | ApiRequest::Album { .. }
        | ApiRequest::AlbumTracks { .. }
        | ApiRequest::AlbumQueueTracks { .. }
        | ApiRequest::Show { .. }
        | ApiRequest::ShowEpisodes { .. }
        | ApiRequest::Track { .. }
        | ApiRequest::Episode { .. } => Operation::Catalog,
    }
}

/// What a request is about depends on nothing but the request and the access
/// to the playlists that it names: not on which sessions are ready.
pub proof fn searches_keep_their_scope(access: AccessTable, query: String, serial: u64)
    ensures
        operation_spec(access, ApiRequest::Search { query, serial }) == Operation::PlaylistSearch,
        operation_spec(access, ApiRequest::SearchCatalogue { query, serial })
            == Operation::CatalogSearch,
        operation_spec(access, ApiRequest::SearchPlaylists { query, serial })
            == Operation::PlaylistSearch,
{
}

/// What a personal application cannot do stays with the shared one, ready or
/// not: the account itself, the whole playlist library, searches for
/// playlists, recommendations, related artists, an artist's top tracks, and
/// every playlist that is not known to be the account's to edit.
pub proof fn what_a_personal_application_lacks_stays_shared(
    personal_ready: bool,
    access: AccessTable,
    request: ApiRequest,
)
    requires
        ({
            ||| request is Me
            ||| request is MyPlaylists
            ||| request is Search
            ||| request is SearchPlaylists
            ||| request is Discover
            ||| request is Recommendations
            ||| request is RelatedArtists
            ||| request is ArtistTopTracks
            ||| request matches ApiRequest::Contains { uris } && names_a_playlist(uris@)
            ||| request matches ApiRequest::Playlist { id, .. } && !may_edit(access.of(id@))
            ||| request matches ApiRequest::PlaylistItems { id, .. } && !may_edit(access.of(id@))
        }),
    ensures
        Gateway::source_for_spec(personal_ready, operation_spec(access, request))
            == ApiSource::Shared,
{
}

/// Without a personal application that is ready, everything is the shared
/// one's.
pub proof fn the_shared_application_serves_alone(access: AccessTable, request: ApiRequest)
    ensures
        Gateway::source_for_spec(false, operation_spec(access, request)) == ApiSource::Shared,
{
}

// ---- what an answer shows --------------------------------------------------------

/// The playlists that an answer shows.
pub open spec fn shown_playlists(response: ApiResponse) -> Seq<Playlist> {
    match response {
        ApiResponse::Discover { result: Ok(playlists), .. } => playlists@,
        ApiResponse::MyPlaylists { result: Ok(page), .. } => page.items@,
        ApiResponse::Playlist { result: Ok(playlist), .. } => seq![playlist],
        ApiResponse::PlaylistCreated(Ok(playlist)) => seq![playlist],
        ApiResponse::Search { result: Ok(results), .. } => match results.playlists {
            Some(page) => page.items@,
            None => Seq::empty(),
        },
        ApiResponse::SearchPlaylists { result: Ok(page), .. } => page.items@,
        _ => Seq::empty(),
    }
}

/// The playlist that an answer says the account may not do this with.
pub open spec fn refused_playlist(response: ApiResponse) -> Option<Seq<char>> {
    let (id, status) = match response {
        ApiResponse::PlaylistUpdated { id, result: Err(error) } => (
            Some(id@),
            error.status_code(),
        ),
        ApiResponse::PlaylistItemsChanged { id, result: Err(error), .. } => (
            Some(id@),
            error.status_code(),
        ),
        ApiResponse::PlaylistItems { id, result: Err(error), .. } => (
            Some(id@),
            error.status_code(),
        ),
        ApiResponse::PlaylistSample { id, result: Err(error), .. } => (
            Some(id@),
            error.status_code(),
        ),
        ApiResponse::PlaylistDuplicatesChecked { playlist_id, result: Err(error), .. } => (
            Some(playlist_id@),
            error.status_code(),
        ),
        ApiResponse::PlaylistFollowChanged { id, result: Err(error), .. } => (
            Some(id@),
            error.status_code(),
        ),
        _ => (None, None),
    };
    if status == Some(403u16) {
        id
    } else {
        None
    }
}

/// The access to a playlist once an answer has been seen.
pub open spec fn access_seen(api: Gateway, response: ApiResponse, id: Seq<char>) -> PlaylistAccess {
    if refused_playlist(response) == Some(id) {
        PlaylistAccess::Unknown
    } else {
        api.access_after(shown_playlists(response), id)
    }
}

fn forget_refused(api: &mut Gateway, id: &String, error: &ApiError)
    requires
        old(api).wf(),
    ensures
        final(api).wf(),
        final(api).shared == old(api).shared,
        final(api).personal == old(api).personal,
        forall|other: Seq<char>| #[trigger]
            final(api).access.of(other) == if error.status_code() == Some(403u16) && other == id@ {
                PlaylistAccess::Unknown
            } else {
                old(api).access.of(other)
            },
{
    match error.status() {
        Some(status) => {
            if status == 403 {
                api.invalidate_playlist_access(id.as_str());
            }
        },
        None => {},
    }
}

/// Learns from an answer: the access to the playlists that it shows, and that
/// what was known of a playlist that was refused no longer holds.
pub fn observe_playlists(api: &mut Gateway, response: &ApiResponse)
    requires
        old(api).wf(),
    ensures
        final(api).wf(),
        final(api).shared == old(api).shared,
        final(api).personal == old(api).personal,
        forall|id: Seq<char>| #[trigger]
            final(api).access.of(id) == access_seen(*old(api), *response, id),
{
    match response {
        ApiResponse::Discover { result: Ok(playlists), .. } => {
            api.observe_playlists(playlists);
        },
        ApiResponse::MyPlaylists { result: Ok(page), .. } => {
            api.observe_playlists(&page.items);
        },
        ApiResponse::Playlist { result: Ok(playlist), .. } => {
            proof {
                reveal_with_fuel(Gateway::access_after, 2);
                assert(seq![*playlist].drop_last() =~= Seq::<Playlist>::empty());
            }
            api.observe_playlist(playlist);
        },
        ApiResponse::PlaylistCreated(Ok(playlist)) => {
            proof {
                reveal_with_fuel(Gateway::access_after, 2);
                assert(seq![*playlist].drop_last() =~= Seq::<Playlist>::empty());
            }
            api.observe_playlist(playlist);
        },
        ApiResponse::Search { result: Ok(results), .. } => {
            match &results.playlists {
                Some(page) => {
                    api.observe_playlists(&page.items);
                },
                None => {},
            }
        },
        ApiResponse::SearchPlaylists { result: Ok(page), .. } => {
            api.observe_playlists(&page.items);
        },
        ApiResponse::PlaylistUpdated { id, result: Err(error) } => {
            forget_refused(api, id, error);
        },
        ApiResponse::PlaylistItemsChanged { id, result: Err(error), .. } => {
            forget_refused(api, id, error);
        },
        ApiResponse::PlaylistItems { id, result: Err(error), .. } => {
            forget_refused(api, id, error);
        },
        ApiResponse::PlaylistSample { id, result: Err(error), .. } => {
            forget_refused(api, id, error);
        },
        ApiResponse::PlaylistDuplicatesChecked { playlist_id, result: Err(error), .. } => {
            forget_refused(api, playlist_id, error);
        },
        ApiResponse::PlaylistFollowChanged { id, result: Err(error), .. } => {
            forget_refused(api, id, error);
        },
        _ => {},
    }
}

} // verus!
