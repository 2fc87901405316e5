//! What the work that runs beside the worker reports when it ends.

use std::sync::Arc;

use vstd::prelude::*;

use crate::album_types::AlbumTypeRequest;
use crate::credentials::{Lease, StoredToken};
use crate::error::{ApiError, ApiResult, ApiSource};
use crate::events::{
    connect_error, friendly_connect_error, AuthStatus, Command, Effect, Event, LocalPlayback,
    Message, Notice, PlaybackCredentials, ProxyBuild, ReadyEngine, StorageError, Ticket,
};
use crate::models::{image_width, largest_image, Image, User};
use crate::text::{contains_text, has_part};

verus! {

/// How long an engine gets to connect, in seconds. This leaves time for the
/// retries of access points, and for resolving and signing in.
pub const ENGINE_CONNECT_TIMEOUT_S: u64 = 75;

/// How long the type of an album is waited for, in seconds.
pub const ALBUM_TYPE_TIMEOUT_S: u64 = 30;

/// How long the streaming session gets for a read, in seconds.
pub const SESSION_READ_TIMEOUT_S: u64 = 30;

/// How long a verification waits before it first tries again, in seconds.
pub const FIRST_VERIFICATION_WAIT_S: u64 = 2;

/// How long a verification waits at most, in seconds.
pub const LONGEST_VERIFICATION_WAIT_S: u64 = 60;

/// What a piece of work has to tell: the interface some notices, and the
/// worker a command.
#[derive(Debug)]
pub struct Report {
    pub notices: Vec<Notice>,
    pub command: Option<Command>,
}

impl Report {
    pub open spec fn says(self, notices: Seq<Notice>, command: Option<Command>) -> bool {
        self.notices@ == notices && self.command == command
    }
}

// ---- finding out whose account a grant is ------------------------------------------------

/// A grant whose account is being found out.
#[derive(Debug)]
pub struct Verification {
    pub source: ApiSource,
    pub token: StoredToken,
    pub lease: Lease,
    pub attempt: u64,
    /// How long the next failure is waited out, in seconds.
    pub wait_s: u64,
}

/// How a verification goes on.
#[derive(Debug)]
pub enum Verdict {
    /// It has ended.
    Report(Command),
    /// Ask again after this many seconds.
    Wait { seconds: u64 },
}

impl Verification {
    pub open spec fn wf(self) -> bool {
        FIRST_VERIFICATION_WAIT_S <= self.wait_s <= LONGEST_VERIFICATION_WAIT_S
    }

    pub open spec fn ended(self) -> Command {
        Command::SignInEnded { source: self.source, attempt: self.attempt }
    }

    /// Whether asking again would not help.
    pub open spec fn is_final(error: ApiError) -> bool {
        error is SignInExpired || (error.status_code() matches Some(status) && status < 500)
    }

    /// The wait after this one.
    pub open spec fn longer(wait_s: u64) -> u64 {
        if wait_s * 2 <= LONGEST_VERIFICATION_WAIT_S {
            (wait_s * 2) as u64
        } else {
            LONGEST_VERIFICATION_WAIT_S
        }
    }

    pub open spec fn verdict(self, answer: ApiResult<User>, current: bool) -> Verdict {
        match answer {
            Ok(user) => Verdict::Report(
                Command::WebVerified {
                    source: self.source,
                    token: self.token,
                    user,
                    lease: self.lease,
                    attempt: self.attempt,
                },
            ),
            Err(error) => if !Self::is_final(error) {
                Verdict::Wait { seconds: self.wait_s }
            } else if current {
                Verdict::Report(
                    Command::WebVerificationFailed {
                        source: self.source,
                        lease: self.lease,
                        attempt: self.attempt,
                        error,
                    },
                )
            } else {
                Verdict::Report(self.ended())
            },
        }
    }

    pub fn new(source: ApiSource, token: StoredToken, lease: Lease, attempt: u64) -> (r: Self)
        ensures
            r.wf(),
            r == (Verification {
                source,
                token,
                lease,
                attempt,
                wait_s: FIRST_VERIFICATION_WAIT_S,
            }),
    {
        Verification { source, token, lease, attempt, wait_s: FIRST_VERIFICATION_WAIT_S }
    }

    /// What ends the verification before Spotify is asked. Once it has waited,
    /// it also ends when the application is no longer being signed in.
    pub fn before_asking(&self, current: bool, authorizing: bool) -> (r: Option<Command>)
        ensures
            r == if current && authorizing {
                None
            } else {
                Some(self.ended())
            },
    {
        if current && authorizing {
            None
        } else {
            Some(Command::SignInEnded { source: self.source, attempt: self.attempt })
        }
    }

    /// Takes Spotify's answer. A passing trouble is waited out, longer each
    /// time; a refusal is final.
    pub fn answered(&mut self, answer: ApiResult<User>, current: bool) -> (r: Verdict)
        requires
            old(self).wf(),
        ensures
            final(self).wf(),
            r == old(self).verdict(answer, current),
            *final(self) == if r is Wait {
                (Verification { wait_s: Self::longer(old(self).wait_s), ..*old(self) })
            } else {
                *old(self)
            },
    {
        let error = match answer {
            Ok(user) => {
                return Verdict::Report(
                    Command::WebVerified {
                        source: self.source,
                        token: self.token.clone(),
                        user,
                        lease: self.lease,
                        attempt: self.attempt,
                    },
                );
            },
            Err(error) => error,
        };
        let refused = match error.status() {
            Some(status) => status < 500,
            None => false,
        };
        if !refused && error.expired().is_none() {
            let seconds: u64 = self.wait_s;
            self.wait_s = if seconds * 2 <= LONGEST_VERIFICATION_WAIT_S {
                seconds * 2
            } else {
                LONGEST_VERIFICATION_WAIT_S
            };
            return Verdict::Wait { seconds };
        }
        if !current {
            return Verdict::Report(
                Command::SignInEnded { source: self.source, attempt: self.attempt },
            );
        }
        Verdict::Report(
            Command::WebVerificationFailed {
                source: self.source,
                lease: self.lease,
                attempt: self.attempt,
                error,
            },
        )
    }
}

/// A grant that was withdrawn while it was being verified is never reported as
/// refused.
pub proof fn a_withdrawn_grant_is_not_refused(verification: Verification, answer: ApiResult<User>)
    ensures
        !(verification.verdict(answer, false) matches Verdict::Report(command) && command
            is WebVerificationFailed),
{
}

/// Only Spotify's word that the grant is no good ends a verification with an
/// error: an unreachable network, a rate limit and a failing server are waited
/// out.
pub proof fn passing_troubles_are_waited_out(
    verification: Verification,
    error: ApiError,
    current: bool,
)
    requires
        error is Network || error is RateLimited || (error.status_code() matches Some(status)
            && status >= 500),
    ensures
        verification.verdict(Err(error), current) is Wait,
{
}

// ---- the browser --------------------------------------------------------------------------

/// Whether an error says that the listener gave up.
pub open spec fn given_up(error: Seq<char>) -> bool {
    has_part(error, "cancelled"@)
}

/// The notices for a sign-in that brought no grant.
pub open spec fn sign_in_notices(source: ApiSource, error: String, current: bool) -> Seq<Notice> {
    let signed_out = if current && source == ApiSource::Shared {
        seq![Notice::Event(Event::Auth(AuthStatus::SignedOut))]
    } else {
        seq![]
    };
    if current && !given_up(error@) {
        signed_out.push(Notice::Error(Message::SignInFailed(error)))
    } else {
        signed_out
    }
}

/// The browser's answer to a sign-in. What a withdrawn lease brings is not
/// shown.
pub fn sign_in_answered(
    source: ApiSource,
    result: Result<StoredToken, String>,
    lease: Lease,
    attempt: u64,
    current: bool,
) -> (r: Report)
    ensures
        match result {
            Ok(token) => r.says(
                seq![],
                Some(Command::WebSignedIn { source, token, lease, attempt }),
            ),
            Err(error) => r.says(
                sign_in_notices(source, error, current),
                Some(Command::SignInEnded { source, attempt }),
            ),
        },
{
    match result {
        Ok(token) => {
            let notices: Vec<Notice> = Vec::new();
            assert(notices@ =~= seq![]);
            Report {
                notices,
                command: Some(Command::WebSignedIn { source, token, lease, attempt }),
            }
        },
        Err(error) => {
            let mut notices: Vec<Notice> = Vec::new();
            if current && source == ApiSource::Shared {
                notices.push(Notice::Event(Event::Auth(AuthStatus::SignedOut)));
            }
            if current && !contains_text(error.as_str(), "cancelled") {
                notices.push(Notice::Error(Message::SignInFailed(error)));
            }
            assert(notices@ =~= sign_in_notices(source, error, current));
            Report { notices, command: Some(Command::SignInEnded { source, attempt }) }
        },
    }
}

/// The notices for a playback grant that was not given.
pub open spec fn playback_grant_notices(error: String, current: bool) -> Seq<Notice> {
    if !current {
        seq![]
    } else if given_up(error@) {
        seq![Notice::Event(Event::Playback(LocalPlayback::Unavailable))]
    } else {
        seq![Notice::PlaybackFailed(Message::Plain(error))]
    }
}

/// The browser's answer to a request for the playback grant.
pub fn playback_grant_answered(
    result: Result<String, String>,
    lease: Lease,
    attempt: u64,
    current: bool,
) -> (r: Report)
    ensures
        match result {
            Ok(access_token) => r.says(
                seq![],
                Some(Command::PlaybackAuthorized { access_token, lease, attempt }),
            ),
            Err(error) => r.says(
                playback_grant_notices(error, current),
                Some(Command::PlaybackAuthEnded { attempt }),
            ),
        },
{
    match result {
        Ok(access_token) => {
            let notices: Vec<Notice> = Vec::new();
            assert(notices@ =~= seq![]);
            Report {
                notices,
                command: Some(Command::PlaybackAuthorized { access_token, lease, attempt }),
            }
        },
        Err(error) => {
            let mut notices: Vec<Notice> = Vec::new();
            if current {
                if contains_text(error.as_str(), "cancelled") {
                    notices.push(Notice::Event(Event::Playback(LocalPlayback::Unavailable)));
                } else {
                    notices.push(Notice::PlaybackFailed(Message::Plain(error)));
                }
            }
            assert(notices@ =~= playback_grant_notices(error, current));
            Report { notices, command: Some(Command::PlaybackAuthEnded { attempt }) }
        },
    }
}

// ---- the engine ---------------------------------------------------------------------------

/// What came of connecting an engine.
#[derive(Debug)]
pub enum Connection {
    /// The audio cache could not be opened.
    NoCache(String),
    Ready(ReadyEngine),
    Failed(String),
    TimedOut,
}

/// Reports an engine that connected, or why none did.
pub fn connection_ended(
    connection: Connection,
    session_generation: u64,
    lease: Lease,
) -> (r: Command)
    ensures
        r == (Command::EngineConnected {
            session_generation,
            engine: match connection {
                Connection::Ready(ready) => Some(ready),
                _ => None,
            },
            error: match connection {
                Connection::Ready(_) => None,
                Connection::NoCache(error) => Some(Message::Plain(error)),
                Connection::Failed(error) => Some(connect_error(error)),
                Connection::TimedOut => Some(Message::ConnectTimedOut),
            },
            lease,
        }),
{
    let (engine, error) = match connection {
        Connection::Ready(ready) => (Some(ready), None),
        Connection::NoCache(error) => (None, Some(Message::Plain(error))),
        Connection::Failed(error) => (None, Some(friendly_connect_error(error))),
        Connection::TimedOut => (None, Some(Message::ConnectTimedOut)),
    };
    Command::EngineConnected { session_generation, engine, error, lease }
}

/// What an engine says on its own.
#[derive(Debug)]
pub enum EngineEvent {
    State(Ticket),
    SessionEnded,
}

/// Passes on what an engine says, while its lease lasts.
pub fn engine_said(event: EngineEvent, current: bool) -> (r: Report)
    ensures
        r.says(
            match event {
                EngineEvent::State(state) => if current {
                    seq![Notice::Event(Event::Local(state))]
                } else {
                    seq![]
                },
                EngineEvent::SessionEnded => seq![],
            },
            match event {
                EngineEvent::State(_) => None,
                EngineEvent::SessionEnded => if current {
                    Some(Command::Reconnect)
                } else {
                    None
                },
            },
        ),
{
    let mut notices: Vec<Notice> = Vec::new();
    let mut command: Option<Command> = None;
    if current {
        match event {
            EngineEvent::State(state) => {
                notices.push(Notice::Event(Event::Local(state)));
            },
            EngineEvent::SessionEnded => {
                command = Some(Command::Reconnect);
            },
        }
    }
    proof {
        if let EngineEvent::State(state) = event {
            assert(current ==> notices@ =~= seq![Notice::Event(Event::Local(state))]);
        }
        assert(!(current && event is State) ==> notices@ =~= seq![]);
    }
    Report { notices, command }
}

/// Reports whether an album is an EP. Nothing came in time when there is no
/// answer.
pub fn album_type_answered(
    request: AlbumTypeRequest,
    answer: Option<Result<bool, String>>,
) -> (r: Command)
    ensures
        r matches Command::AlbumTypeResolved { request: asked, result } && asked == request && (
        match answer {
            Some(answer) => result == answer,
            None => result matches Err(error) && error@ == "album metadata timed out"@,
        }),
{
    let result = match answer {
        Some(answer) => answer,
        None => Err("album metadata timed out".to_owned()),
    };
    Command::AlbumTypeResolved { request, result }
}

// ---- receivers ------------------------------------------------------------------------------

/// What a receiver is signed in with, or why it is not.
pub fn receiver_credentials(
    held: Option<Arc<PlaybackCredentials>>,
    current: bool,
) -> (r: Result<Arc<PlaybackCredentials>, String>)
    ensures
        match r {
            Ok(credentials) => current && held == Some(credentials),
            Err(error) => if !current {
                error@ == "Sign-in changed before receiver activation."@
            } else {
                held is None && error@
                    == "Enable playback on this computer first, so there is an account to hand over"@
            },
        },
{
    if !current {
        return Err("Sign-in changed before receiver activation.".to_owned());
    }
    match held {
        Some(credentials) => Ok(credentials),
        None => Err(
            "Enable playback on this computer first, so there is an account to hand over".to_owned(),
        ),
    }
}

// ---- stored credentials ---------------------------------------------------------------------

/// What is shown when a credential could not be stored or deleted: nothing,
/// once the credential has been replaced.
pub fn storage_notice(error: StorageError, current: bool) -> (r: Option<Notice>)
    ensures
        r == if current && error != StorageError::Stale {
            Some(Notice::Error(Message::Storage(error)))
        } else {
            None
        },
{
    if !current {
        return None;
    }
    match error {
        StorageError::Stale => None,
        StorageError::Failed => Some(Notice::Error(Message::Storage(error))),
    }
}

/// What is shown once the proxy's password has been stored, or, when it is not
/// `saving`, deleted.
pub fn proxy_password_written(
    result: Result<(), StorageError>,
    saving: bool,
    current: bool,
) -> (r: Option<Event>)
    ensures
        r == if !current {
            None
        } else {
            match result {
                Ok(_) => if saving {
                    Some(Event::ProxyPasswordStored)
                } else {
                    None
                },
                Err(error) => if error == StorageError::Stale {
                    None
                } else {
                    Some(Event::ProxyStorageFailed(error))
                },
            }
        },
{
    if !current {
        return None;
    }
    match result {
        Ok(_) => {
            if saving {
                Some(Event::ProxyPasswordStored)
            } else {
                None
            }
        },
        Err(error) => match error {
            StorageError::Stale => None,
            StorageError::Failed => Some(Event::ProxyStorageFailed(error)),
        },
    }
}

/// What follows once the stored password of the proxy has been marked as
/// withdrawn. The mark lasts, so that the password cannot come back even when
/// deleting it fails.
pub fn proxy_password_revoked(result: Result<(), StorageError>, lease: Lease) -> (r: Vec<Effect>)
    ensures
        r@ == match result {
            Ok(_) => seq![
                Effect::Emit(Notice::Event(Event::ProxyPasswordStored)),
                Effect::DeleteProxyPassword { lease },
            ],
            Err(error) => seq![Effect::Emit(Notice::Event(Event::ProxyStorageFailed(error)))],
        },
{
    let mut effects: Vec<Effect> = Vec::new();
    match result {
        Ok(_) => {
            effects.push(Effect::Emit(Notice::Event(Event::ProxyPasswordStored)));
            effects.push(Effect::DeleteProxyPassword { lease });
            assert(effects@ =~= seq![
                Effect::Emit(Notice::Event(Event::ProxyPasswordStored)),
                Effect::DeleteProxyPassword { lease },
            ]);
        },
        Err(error) => {
            effects.push(Effect::Emit(Notice::Event(Event::ProxyStorageFailed(error))));
            assert(effects@ =~= seq![
                Effect::Emit(Notice::Event(Event::ProxyStorageFailed(error))),
            ]);
        },
    }
    effects
}

// ---- starting -------------------------------------------------------------------------------

/// How the network can be used at the start.
#[derive(Debug)]
pub struct Network {
    /// Why it cannot be.
    pub blocked: Option<String>,
    pub notice: Option<Notice>,
}

/// How the network can be used at the start: not at all while the proxy's
/// password is still to be read, and not with settings that make no proxy.
pub fn network_at_start(restoring: bool, built: ProxyBuild) -> (r: Network)
    ensures
        if restoring {
            r.blocked is Some && r.blocked->0@ == "Restoring proxy settings"@ && r.notice is None
        } else {
            match built {
                Ok(_) => r.blocked is None && r.notice is None,
                Err(error) => r.blocked == Some(error) && r.notice == Some(
                    Notice::Error(Message::Network(error)),
                ),
            }
        },
{
    if restoring {
        return Network { blocked: Some("Restoring proxy settings".to_owned()), notice: None };
    }
    match built {
        Ok(_) => Network { blocked: None, notice: None },
        Err(error) => Network {
            blocked: Some(error.clone()),
            notice: Some(Notice::Error(Message::Network(error))),
        },
    }
}

// ---- playlist artwork -----------------------------------------------------------------------

/// Which image of a playlist is compared with a cover that was uploaded.
pub fn cover_image(images: &Vec<Image>) -> (r: Result<usize, String>)
    ensures
        match r {
            Ok(best) => best < images@.len() && (forall|i: int|
                0 <= i < images@.len() ==> image_width(#[trigger] images@[i]) <= image_width(
                    images@[best as int],
                )) && (forall|i: int|
                0 <= i < best ==> image_width(#[trigger] images@[i]) < image_width(
                    images@[best as int],
                )),
            Err(error) => images@.len() == 0 && error@ == "No playlist artwork yet."@,
        },
{
    match largest_image(images) {
        Some(best) => Ok(best),
        None => Err("No playlist artwork yet.".to_owned()),
    }
}

} // verus!
