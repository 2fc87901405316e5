//! What the interface and the worker tell each other, and what the worker has
//! done outside.

use std::sync::Arc;

use vstd::prelude::*;
use vstd::utf8::encode_utf8;

use crate::album_types::AlbumTypeRequest;
use crate::api::{ApiRequest, ApiResponse, Cover};
use crate::caches::PlaylistCache;
use crate::credentials::{Lease, Slot, StoredToken};
use crate::error::{ApiError, ApiSource};
use crate::gateway::AccountId;
use crate::models::{Album, Image, PlaylistItem, User};
use crate::releases::ReleaseScanProgress;
use crate::text::{contains_text, has_part, join2, lowercase, to_lower};

verus! {

/// Stands for a value that the surrounding program holds.
#[derive(Clone, Copy, Debug, PartialEq, Eq, Structural)]
pub struct Ticket {
    pub id: u64,
}

// ---- network settings -----------------------------------------------------------------

#[derive(Debug, PartialEq, Eq)]
pub struct ProxyPassword {
    pub secret: String,
}

impl Clone for ProxyPassword {
    fn clone(&self) -> (r: Self)
        ensures
            r == *self,
    {
        ProxyPassword { secret: self.secret.clone() }
    }
}

/// A proxy that the listener entered.
#[derive(Debug, PartialEq, Eq)]
pub struct ManualProxy {
    pub host: String,
    pub port: u16,
    pub username: Option<String>,
    pub password: Option<ProxyPassword>,
}

impl Clone for ManualProxy {
    fn clone(&self) -> (r: Self)
        ensures
            r == *self,
    {
        ManualProxy {
            host: self.host.clone(),
            port: self.port,
            username: crate::models::clone_text(&self.username),
            password: match &self.password {
                Some(password) => Some(password.clone()),
                None => None,
            },
        }
    }
}

/// How the network is reached.
#[derive(Debug, PartialEq, Eq)]
pub enum ProxyConfig {
    Off,
    System,
    Http(ManualProxy),
    Socks(ManualProxy),
    /// Settings that make no proxy, and why.
    Invalid(String),
}

impl Clone for ProxyConfig {
    fn clone(&self) -> (r: Self)
        ensures
            r == *self,
    {
        match self {
            ProxyConfig::Off => ProxyConfig::Off,
            ProxyConfig::System => ProxyConfig::System,
            ProxyConfig::Http(proxy) => ProxyConfig::Http(proxy.clone()),
            ProxyConfig::Socks(proxy) => ProxyConfig::Socks(proxy.clone()),
            ProxyConfig::Invalid(reason) => ProxyConfig::Invalid(reason.clone()),
        }
    }
}

impl ProxyConfig {
    /// The proxy that the listener entered, if any.
    pub open spec fn manual(self) -> Option<ManualProxy> {
        match self {
            ProxyConfig::Http(proxy) => Some(proxy),
            ProxyConfig::Socks(proxy) => Some(proxy),
            _ => None,
        }
    }

    /// The settings with a password that was kept elsewhere.
    pub open spec fn with_password(self, password: ProxyPassword) -> ProxyConfig {
        match self {
            ProxyConfig::Http(proxy) => ProxyConfig::Http(
                ManualProxy { password: Some(password), ..proxy },
            ),
            ProxyConfig::Socks(proxy) => ProxyConfig::Socks(
                ManualProxy { password: Some(password), ..proxy },
            ),
            other => other,
        }
    }

    pub fn restore_password(self, password: &ProxyPassword) -> (r: ProxyConfig)
        ensures
            r == self.with_password(*password),
    {
        match self {
            ProxyConfig::Http(proxy) => ProxyConfig::Http(
                ManualProxy { password: Some(password.clone()), ..proxy },
            ),
            ProxyConfig::Socks(proxy) => ProxyConfig::Socks(
                ManualProxy { password: Some(password.clone()), ..proxy },
            ),
            other => other,
        }
    }
}

/// What local playback runs with.
#[derive(Debug, PartialEq, Eq)]
pub struct EngineConfig {
    pub proxy: ProxyConfig,
    /// The audio settings.
    pub audio: Ticket,
}

impl Clone for EngineConfig {
    fn clone(&self) -> (r: Self)
        ensures
            r == *self,
    {
        EngineConfig { proxy: self.proxy.clone(), audio: self.audio }
    }
}

// ---- stored credentials ------------------------------------------------------------------

/// Why a credential could not be read or written.
#[derive(Clone, Copy, Debug, PartialEq, Eq, Structural)]
pub enum StorageError {
    /// The lease ended before the work did.
    Stale,
    /// The platform's store refused.
    Failed,
}

#[derive(Clone, Copy, Debug, PartialEq, Eq, Structural)]
pub enum AuthenticationType {
    Password,
    SpotifyToken,
    Stored,
}

/// What the streaming session signs in with.
#[derive(Debug, PartialEq, Eq)]
pub struct PlaybackCredentials {
    pub username: Option<String>,
    pub auth_type: AuthenticationType,
    pub auth_data: Secret,
}

/// What a user is known by to the streaming session.
#[derive(Debug, PartialEq, Eq)]
pub enum Secret {
    Text(String),
    Bytes(Vec<u8>),
}

impl Secret {
    pub fn bytes(&self) -> (r: Vec<u8>)
        ensures
            r@ == match *self {
                Secret::Text(text) => encode_utf8(text@),
                Secret::Bytes(bytes) => bytes@,
            },
    {
        match self {
            Secret::Text(text) => vstd::string::StrSliceExecFns::as_bytes_vec(text.as_str()),
            Secret::Bytes(bytes) => {
                let r = bytes.clone();
                assert(r@ =~= bytes@);
                r
            },
        }
    }
}

/// Credentials that bind a streaming token to an account.
pub open spec fn bound_credentials(account: Option<AccountId>, access_token: String) -> Option<
    Arc<PlaybackCredentials>,
> {
    match account {
        Some(account) => if account.id@.len() > 0 {
            Some(
                Arc::new(
                    PlaybackCredentials {
                        username: Some(account.id),
                        auth_type: AuthenticationType::SpotifyToken,
                        auth_data: Secret::Text(access_token),
                    },
                ),
            )
        } else {
            None
        },
        None => None,
    }
}

/// Binds a streaming token to an account that either Web API grant verified. A
/// late browser result after sign-out starts no anonymous session.
pub fn playback_credentials(account: Option<AccountId>, access_token: String) -> (r: Option<
    Arc<PlaybackCredentials>,
>)
    ensures
        r == bound_credentials(account, access_token),
{
    match account {
        Some(account) => {
            if account.as_str().is_empty() {
                None
            } else {
                Some(
                    Arc::new(
                        PlaybackCredentials {
                            username: Some(account.id),
                            auth_type: AuthenticationType::SpotifyToken,
                            auth_data: Secret::Text(access_token),
                        },
                    ),
                )
            }
        },
        None => None,
    }
}

/// A stored credential.
#[derive(Debug, PartialEq, Eq)]
pub enum Grant {
    Web(StoredToken),
    Playback(Arc<PlaybackCredentials>),
    Proxy(ProxyPassword),
}

/// What was read from the store.
#[derive(Debug, PartialEq, Eq)]
pub struct Loaded {
    pub grant: Option<Grant>,
    pub warning: Option<StorageError>,
}

// ---- states shown ------------------------------------------------------------------------

#[derive(Debug, PartialEq, Eq)]
pub enum AuthStatus {
    Starting,
    SignedOut,
    WaitingForBrowser { url: String },
    Connecting,
    Connected { username: String },
    Failed(String),
}

impl Clone for AuthStatus {
    fn clone(&self) -> (r: Self)
        ensures
            r == *self,
    {
        match self {
            AuthStatus::Starting => AuthStatus::Starting,
            AuthStatus::SignedOut => AuthStatus::SignedOut,
            AuthStatus::WaitingForBrowser { url } => AuthStatus::WaitingForBrowser {
                url: url.clone(),
            },
            AuthStatus::Connecting => AuthStatus::Connecting,
            AuthStatus::Connected { username } => AuthStatus::Connected {
                username: username.clone(),
            },
            AuthStatus::Failed(text) => AuthStatus::Failed(text.clone()),
        }
    }
}

/// The state of playback on this computer, independent of the Web API sign-in.
#[derive(Debug, PartialEq, Eq)]
pub enum LocalPlayback {
    /// Not authorized; local playback is unavailable but the app still works.
    Unavailable,
    /// The browser is open for the playback grant.
    Authorizing,
    /// Connecting the engine.
    Connecting,
    /// This computer is a ready Spotify Connect device.
    Ready { device_id: String },
    Failed(String),
}

impl Clone for LocalPlayback {
    fn clone(&self) -> (r: Self)
        ensures
            r == *self,
    {
        match self {
            LocalPlayback::Unavailable => LocalPlayback::Unavailable,
            LocalPlayback::Authorizing => LocalPlayback::Authorizing,
            LocalPlayback::Connecting => LocalPlayback::Connecting,
            LocalPlayback::Ready { device_id } => LocalPlayback::Ready {
                device_id: device_id.clone(),
            },
            LocalPlayback::Failed(text) => LocalPlayback::Failed(text.clone()),
        }
    }
}

/// A sentence shown to the listener.
#[derive(Debug, PartialEq, Eq)]
pub enum Message {
    Plain(String),
    ThemesFolder(String),
    Network(String),
    PlaybackError(String),
    NoLocalPlayback,
    SignInExpired,
    Storage(StorageError),
    PermissionsChanged,
    SharedSignIn(ApiError),
    PersonalSignIn(ApiError),
    AnotherAccount,
    FinishSigningIn,
    StoredForAnother,
    KeepsDropping,
    PremiumNeeded,
    AuthorizedForAnother,
    PlaybackUnavailable,
    SignInFailed(String),
    ConnectTimedOut,
    RejectedSignIn,
    Unreachable(String),
}

impl Clone for Message {
    fn clone(&self) -> (r: Self)
        ensures
            r == *self,
    {
        match self {
            Message::Plain(text) => Message::Plain(text.clone()),
            Message::ThemesFolder(text) => Message::ThemesFolder(text.clone()),
            Message::Network(text) => Message::Network(text.clone()),
            Message::PlaybackError(text) => Message::PlaybackError(text.clone()),
            Message::NoLocalPlayback => Message::NoLocalPlayback,
            Message::SignInExpired => Message::SignInExpired,
            Message::Storage(error) => Message::Storage(*error),
            Message::PermissionsChanged => Message::PermissionsChanged,
            Message::SharedSignIn(error) => Message::SharedSignIn(error.clone()),
            Message::PersonalSignIn(error) => Message::PersonalSignIn(error.clone()),
            Message::AnotherAccount => Message::AnotherAccount,
            Message::FinishSigningIn => Message::FinishSigningIn,
            Message::StoredForAnother => Message::StoredForAnother,
            Message::KeepsDropping => Message::KeepsDropping,
            Message::PremiumNeeded => Message::PremiumNeeded,
            Message::AuthorizedForAnother => Message::AuthorizedForAnother,
            Message::PlaybackUnavailable => Message::PlaybackUnavailable,
            Message::SignInFailed(text) => Message::SignInFailed(text.clone()),
            Message::ConnectTimedOut => Message::ConnectTimedOut,
            Message::RejectedSignIn => Message::RejectedSignIn,
            Message::Unreachable(text) => Message::Unreachable(text.clone()),
        }
    }
}

impl Message {
    pub open spec fn words(self) -> Seq<char> {
        match self {
            Message::Plain(text) => text@,
            Message::ThemesFolder(error) => "Couldn't open the themes folder: "@ + error@,
            Message::Network(error) => "Network configuration failed: "@ + error@,
            Message::PlaybackError(error) => "Playback error: "@ + error@,
            Message::NoLocalPlayback => "Local playback isn't set up on this computer yet"@,
            Message::SignInExpired => "Your Spotify sign-in expired. Please sign in again."@,
            Message::Storage(error) => match error {
                StorageError::Stale => "The sign-in changed before it could be stored."@,
                StorageError::Failed => "Couldn't use the system's credential store."@,
            },
            Message::PermissionsChanged => "Spotify permissions changed. Sign in again."@,
            Message::SharedSignIn(error) => "Shared Spotify sign-in failed: "@ + error.text(),
            Message::PersonalSignIn(error) => "Personal app authorization failed: "@ + error.text(),
            Message::AnotherAccount => "Both Spotify apps must use the same account."@,
            Message::FinishSigningIn =>
                "Finish signing in to Spotify before enabling playback."@,
            Message::StoredForAnother =>
                "Stored playback belongs to another Spotify account. Enable playback again."@,
            Message::KeepsDropping =>
                "Local playback keeps dropping. Re-enable it from Settings."@,
            Message::PremiumNeeded => "Local playback needs Spotify Premium."@,
            Message::AuthorizedForAnother =>
                "Playback was authorized for another Spotify account. Enable playback again with the signed-in account."@,
            Message::PlaybackUnavailable => "Local playback is unavailable"@,
            Message::SignInFailed(text) => "Sign-in failed: "@ + text@,
            Message::ConnectTimedOut => "Connecting to Spotify timed out"@,
            Message::RejectedSignIn =>
                "Spotify rejected the saved sign-in. Please sign in again."@,
            Message::Unreachable(text) => "Couldn't reach Spotify: "@ + text@,
        }
    }

    /// The sentence.
    pub fn text(&self) -> (r: String)
        ensures
            r@ == self.words(),
    {
        match self {
            Message::Plain(text) => text.clone(),
            Message::ThemesFolder(error) => join2(
                "Couldn't open the themes folder: ",
                error.as_str(),
            ),
            Message::Network(error) => join2("Network configuration failed: ", error.as_str()),
            Message::PlaybackError(error) => join2("Playback error: ", error.as_str()),
            Message::NoLocalPlayback =>
                "Local playback isn't set up on this computer yet".to_owned(),
            Message::SignInExpired =>
                "Your Spotify sign-in expired. Please sign in again.".to_owned(),
            Message::Storage(error) => match error {
                StorageError::Stale =>
                    "The sign-in changed before it could be stored.".to_owned(),
                StorageError::Failed => "Couldn't use the system's credential store.".to_owned(),
            },
            Message::PermissionsChanged =>
                "Spotify permissions changed. Sign in again.".to_owned(),
            Message::SharedSignIn(error) => join2(
                "Shared Spotify sign-in failed: ",
                error.message().as_str(),
            ),
            Message::PersonalSignIn(error) => join2(
                "Personal app authorization failed: ",
                error.message().as_str(),
            ),
            Message::AnotherAccount => "Both Spotify apps must use the same account.".to_owned(),
            Message::FinishSigningIn =>
                "Finish signing in to Spotify before enabling playback.".to_owned(),
            Message::StoredForAnother =>
                "Stored playback belongs to another Spotify account. Enable playback again.".to_owned(),
            Message::KeepsDropping =>
                "Local playback keeps dropping. Re-enable it from Settings.".to_owned(),
            Message::PremiumNeeded => "Local playback needs Spotify Premium.".to_owned(),
            Message::AuthorizedForAnother =>
                "Playback was authorized for another Spotify account. Enable playback again with the signed-in account.".to_owned(),
            Message::PlaybackUnavailable => "Local playback is unavailable".to_owned(),
            Message::SignInFailed(text) => join2("Sign-in failed: ", text.as_str()),
            Message::ConnectTimedOut => "Connecting to Spotify timed out".to_owned(),
            Message::RejectedSignIn =>
                "Spotify rejected the saved sign-in. Please sign in again.".to_owned(),
            Message::Unreachable(text) => join2("Couldn't reach Spotify: ", text.as_str()),
        }
    }
}

/// What went wrong when the engine connected, in words for the listener, given
/// the lowercase form of the error.
pub open spec fn worded_error(text: String, lower: Seq<char>) -> Message {
    if has_part(lower, "badcredentials"@) || has_part(lower, "bad credentials"@) {
        Message::RejectedSignIn
    } else if has_part(lower, "premium"@) {
        Message::PremiumNeeded
    } else if has_part(lower, "dns"@) || has_part(lower, "connect"@) || has_part(
        lower,
        "resolve"@,
    ) {
        Message::Unreachable(text)
    } else {
        Message::Plain(text)
    }
}

pub open spec fn connect_error(text: String) -> Message {
    worded_error(text, lowercase(text@))
}

/// Words an error whose lowercase form is known.
pub fn word_connect_error(text: String, lower: &str) -> (r: Message)
    ensures
        r == worded_error(text, lower@),
{
    if contains_text(lower, "badcredentials") || contains_text(lower, "bad credentials") {
        Message::RejectedSignIn
    } else if contains_text(lower, "premium") {
        Message::PremiumNeeded
    } else if contains_text(lower, "dns") || contains_text(lower, "connect") || contains_text(
        lower,
        "resolve",
    ) {
        Message::Unreachable(text)
    } else {
        Message::Plain(text)
    }
}

/// What went wrong when the engine connected, in words for the listener.
pub fn friendly_connect_error(text: String) -> (r: Message)
    ensures
        r == connect_error(text),
{
    let lower = to_lower(text.as_str());
    word_connect_error(text, lower.as_str())
}

// ---- events ----------------------------------------------------------------------------------

/// The words of a track are asked for.
#[derive(Debug, PartialEq, Eq)]
pub struct LyricsRequest {
    /// The track the answer is for, so a stale one is ignored.
    pub uri: String,
    pub query: Ticket,
}

/// An entry of the account's playlist tree.
#[derive(Debug, PartialEq, Eq)]
pub enum RootlistEntry {
    Playlist(String),
    FolderStart(String),
    FolderEnd,
}

/// The account's playlist tree, and which of its playlists take songs from
/// this account.
#[derive(Debug, PartialEq, Eq)]
pub struct Rootlist {
    pub entries: Vec<RootlistEntry>,
    pub editable: Vec<String>,
}

/// A Spotify Connect receiver on the local network.
#[derive(Debug, PartialEq, Eq)]
pub struct Receiver {
    pub name: String,
    pub address: Ticket,
}

#[allow(inconsistent_fields)]
#[derive(Debug, PartialEq, Eq)]
pub enum Event {
    ProxyRestored { config: ProxyConfig, password: Option<ProxyPassword> },
    ProxyPasswordStored,
    ProxyStorageFailed(StorageError),
    ProxyApplied { request: u64, config: ProxyConfig, result: Result<bool, String> },
    UpdateSupport(Result<Ticket, String>),
    UpdateProgress { received: u64, total: u64 },
    UpdateDownloaded(Result<Ticket, String>),
    UpdateInstalling(Result<(), String>),
    PlaylistCoverChecked {
        id: String,
        request: u64,
        images: Vec<Image>,
        result: Result<bool, String>,
    },
    PlaylistCoverChosen { id: String, request: u64, result: Result<Option<Cover>, String> },
    Auth(AuthStatus),
    Playback(LocalPlayback),
    /// Receivers seen on the local network that Spotify has not listed.
    Receivers(Vec<Receiver>),
    ReceiverActivated { name: String, result: Result<(), String> },
    Local(Ticket),
    Api(Box<ApiResponse>),
    NewReleasesProgress { generation: u64, progress: ReleaseScanProgress },
    NewReleasesCache {
        account_id: String,
        generation: u64,
        releases: Vec<Album>,
        refreshing: bool,
    },
    Accent { url: String, color: [u8; 3] },
    Error(String),
    UpdateChecked { manual: bool, result: Result<Option<Ticket>, String> },
    /// Track lyrics, or `None` when unavailable.
    Lyrics { uri: String, result: Result<Option<Ticket>, String> },
    Rootlist { result: Result<Rootlist, String> },
    /// The result of reading a playlist cache for this load generation.
    PlaylistCache {
        account_id: String,
        id: String,
        generation: u64,
        cache: Option<PlaylistCache>,
    },
    /// A user id resolved to a display name.
    UserName { id: String, name: Option<String> },
    /// Whether Spotify's own metadata says that an album is an EP.
    AlbumType { uri: String, result: Result<bool, String> },
    /// The verified personal Web API app, or `None` when it is disabled.
    WebApp { client_id: Option<String> },
    LikedSongsCache { account_id: String, generation: u64, cache: Option<Ticket> },
}

/// Something to tell the interface.
#[derive(Debug, PartialEq, Eq)]
pub enum Notice {
    Error(Message),
    AuthFailed(Message),
    PlaybackFailed(Message),
    Event(Event),
}

impl Notice {
    /// Whether an event is the one for a notice.
    pub open spec fn told_by(self, event: Event) -> bool {
        match self {
            Notice::Error(message) => event matches Event::Error(text) && text@ == message.words(),
            Notice::AuthFailed(message) => event matches Event::Auth(AuthStatus::Failed(text))
                && text@ == message.words(),
            Notice::PlaybackFailed(message) => event matches Event::Playback(
                LocalPlayback::Failed(text),
            ) && text@ == message.words(),
            Notice::Event(told) => event == told,
        }
    }

    /// The event for the interface.
    pub fn event(self) -> (r: Event)
        ensures
            self.told_by(r),
    {
        match self {
            Notice::Error(message) => Event::Error(message.text()),
            Notice::AuthFailed(message) => Event::Auth(AuthStatus::Failed(message.text())),
            Notice::PlaybackFailed(message) => Event::Playback(
                LocalPlayback::Failed(message.text()),
            ),
            Notice::Event(event) => event,
        }
    }
}

// ---- commands ----------------------------------------------------------------------------------

/// An engine that has connected.
#[derive(Debug, PartialEq, Eq)]
pub struct ReadyEngine {
    pub engine: Ticket,
    /// What the engine can sign in with again.
    pub credentials: Option<Arc<PlaybackCredentials>>,
    pub device_id: String,
}

/// What came of making a network client for proxy settings: the proxy that
/// the engine would use.
pub type ProxyBuild = Result<Option<String>, String>;

#[allow(inconsistent_fields)]
#[derive(Debug, PartialEq, Eq)]
pub enum Command {
    OpenThemesFolder,
    ProxyRestored { lease: Lease, result: Result<Loaded, StorageError> },
    CredentialsRestored { slot: Slot, lease: Lease, result: Result<Loaded, StorageError> },
    CheckPlaylistCover { id: String, request: u64, cover: Cover, images: Vec<Image> },
    ChoosePlaylistCover { id: String, request: u64, selected: Ticket },
    /// Start the Web API sign-in in the browser.
    SignIn { request: u64, config: ProxyConfig, built: ProxyBuild },
    CancelSignIn,
    SignOut,
    /// Authorize local playback on this computer (a separate browser grant).
    AuthorizePlayback,
    /// Audio settings changed.
    RestartEngine(EngineConfig),
    /// Network settings changed.
    ApplyProxy { request: u64, config: ProxyConfig, built: ProxyBuild },
    Player(Ticket),
    Api(ApiRequest),
    ApiFinished {
        generation: u64,
        response: Box<ApiResponse>,
        expired: Option<ApiSource>,
        shared_lease: Lease,
        personal_lease: Lease,
    },
    Accent { url: String },
    Shutdown,
    /// The Web API browser flow produced a grant.
    WebSignedIn { source: ApiSource, token: StoredToken, lease: Lease, attempt: u64 },
    WebVerified { source: ApiSource, token: StoredToken, user: User, lease: Lease, attempt: u64 },
    WebVerificationFailed { source: ApiSource, lease: Lease, attempt: u64, error: ApiError },
    /// A Web API browser flow or verification ended.
    SignInEnded { source: ApiSource, attempt: u64 },
    /// The playback browser flow ended without a credential.
    PlaybackAuthEnded { attempt: u64 },
    /// The playback grant produced a streaming access token.
    PlaybackAuthorized { access_token: String, lease: Lease, attempt: u64 },
    /// An attempt to connect an engine finished.
    EngineConnected {
        session_generation: u64,
        engine: Option<ReadyEngine>,
        error: Option<Message>,
        lease: Lease,
    },
    /// The streaming session ended on its own.
    Reconnect,
    DiscoverReceivers,
    /// Send the account to a receiver so it joins Spotify Connect.
    ActivateReceiver(Receiver),
    CheckForUpdates { manual: bool, source: Ticket },
    InspectUpdate,
    DownloadUpdate { release: Ticket, source: Ticket },
    InstallUpdate { prepared: Ticket, arguments: Vec<String> },
    Lyrics(LyricsRequest),
    /// The account's playlist tree, from the streaming session.
    Rootlist,
    RootlistFinished { generation: u64, result: Result<Rootlist, String> },
    /// Check that a reconnect's pickup really started, and try again if not.
    VerifyResume,
    /// Add, replace, or remove the personal Web API application. `problem` is
    /// why no grant can be asked for it.
    ConfigurePersonalWebApp { client_id: Option<String>, problem: Option<String> },
    LoadPlaylistCache { id: String, generation: u64 },
    StorePlaylistCache {
        id: String,
        snapshot: String,
        items: Vec<PlaylistItem>,
        total: u32,
        next_offset: Option<u32>,
    },
    UserNames(Vec<String>),
    LoadLikedSongsCache { generation: u64 },
    StoreLikedSongsCache { account_id: String, cache: Ticket },
    AlbumTypes(Vec<String>),
    AlbumTypeResolved { request: AlbumTypeRequest, result: Result<bool, String> },
}

impl Command {
    /// Commands that go through while nothing may be asked of Spotify.
    pub open spec fn works_offline(self) -> bool {
        ||| self is Accent
        ||| self is Shutdown
        ||| self is CheckForUpdates
        ||| self is InspectUpdate
        ||| self is DownloadUpdate
        ||| self is InstallUpdate
    }

    /// Whether a command is let through.
    pub fn passes(&self, offline: bool) -> (r: bool)
        ensures
            r == (!offline || self.works_offline()),
    {
        if !offline {
            return true;
        }
        match self {
            Command::Accent { .. }
            | Command::Shutdown
            | Command::CheckForUpdates { .. }
            | Command::InspectUpdate
            | Command::DownloadUpdate { .. }
            | Command::InstallUpdate { .. } => true,
            _ => false,
        }
    }

    /// Commands that are carried out while the proxy's password is still being
    /// read; all others wait for it.
    pub open spec fn precedes_network(self) -> bool {
        ||| self is ProxyRestored
        ||| self is ApplyProxy
        ||| self is SignIn
        ||| self is SignOut
        ||| self is CancelSignIn
        ||| self is Shutdown
    }

    pub fn is_before_network(&self) -> (r: bool)
        ensures
            r == self.precedes_network(),
    {
        match self {
            Command::ProxyRestored { .. }
            | Command::ApplyProxy { .. }
            | Command::SignIn { .. }
            | Command::SignOut
            | Command::CancelSignIn
            | Command::Shutdown => true,
            _ => false,
        }
    }
}

/// Something to be done outside, in the order in which it is given.
#[allow(inconsistent_fields)]
#[derive(Debug, PartialEq, Eq)]
pub enum Effect {
    /// Tell the interface.
    Emit(Notice),
    /// Hand a command in again, behind the ones that wait already.
    Requeue(Command),
    /// Carry out a command that changes nothing here.
    Perform(Command),
    /// Use the network through these settings from now on.
    UseProxy(ProxyConfig),
    /// Let nothing use the network, and why.
    BlockNetwork(String),
    /// Make a network client for settings that were read, and hand the result
    /// to `restored_proxy_built`.
    BuildRestoredProxy {
        config: ProxyConfig,
        password: Option<ProxyPassword>,
        protected: bool,
    },
    SaveProxyPassword { lease: Lease, password: ProxyPassword },
    /// Mark the stored password as withdrawn, and go on with
    /// `proxy_password_revoked`.
    RevokeProxyPassword { lease: Lease },
    DeleteProxyPassword { lease: Lease },
    /// Read a stored credential.
    LoadCredential { lease: Lease },
    /// Mark a stored credential as withdrawn; a failure is told.
    Revoke { slot: Slot },
    RevokeSpotify,
    DeleteStored { lease: Lease },
    StorePlayback { lease: Lease, grant: Arc<PlaybackCredentials> },
    /// Store the tokens of an application from now on.
    RememberTokens { source: ApiSource, lease: Lease },
    DropTokens { source: ApiSource },
    /// Find out whose account a grant is.
    Verify { source: ApiSource, token: StoredToken, lease: Lease, attempt: u64 },
    /// Open the browser to sign in. `announce` says to show the address.
    BeginSignIn {
        source: ApiSource,
        client_id: Option<String>,
        lease: Lease,
        attempt: u64,
        announce: bool,
    },
    /// Open the browser for the playback grant.
    BeginPlaybackSignIn { lease: Lease, attempt: u64 },
    /// Stop waiting for the browser.
    CancelFlow,
    /// Connect an engine, and note the proxy that it is given with
    /// `engine_started`.
    ConnectEngine {
        credentials: Arc<PlaybackCredentials>,
        config: EngineConfig,
        lease: Lease,
        session_generation: u64,
    },
    ShutdownEngine(Ticket),
    EngineCommand { engine: Ticket, command: Ticket },
    ScheduleResumeCheck { delay_ms: u64 },
    Resume { engine: Ticket, point: Ticket },
    ReadRootlist { engine: Ticket, generation: u64 },
    LookUpAlbumType { engine: Ticket, request: AlbumTypeRequest },
    ActivateReceiver {
        receiver: Receiver,
        credentials: Option<Arc<PlaybackCredentials>>,
        lease: Lease,
    },
    /// Every piece of work that belongs to an earlier session ends.
    SessionChanged { generation: u64 },
    CancelTask { task: u64 },
    Dispatch {
        task: u64,
        request: ApiRequest,
        generation: u64,
        background: bool,
        engine: Option<Ticket>,
        shared_lease: Lease,
        personal_lease: Lease,
    },
    ReadPlaylistCache { account: AccountId, id: String, generation: u64 },
    WritePlaylistCache {
        account: AccountId,
        id: String,
        snapshot: String,
        items: Vec<PlaylistItem>,
        total: u32,
        next_offset: Option<u32>,
    },
    ReadUserNames { engine: Ticket, ids: Vec<String> },
    ReadLikedSongsCache { account: AccountId, generation: u64 },
    WriteLikedSongsCache { account_id: String, cache: Ticket },
    Stop,
}

} // verus!
