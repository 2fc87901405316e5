//! What the worker does for the listener: what comes of each command when nothing
//! stands in its way.

use std::sync::Arc;

use vstd::prelude::*;

use crate::album_types::AlbumTypeRequest;
use crate::api::{ApiRequest, ApiResponse};
use crate::credentials::{has_word, Lease, Slot, StoredToken};
use crate::error::ApiSource;
use crate::events::{
    AuthStatus, AuthenticationType, Command, Effect, EngineConfig, Event, Grant, Loaded,
    LocalPlayback, Message, Notice, PlaybackCredentials, ReadyEngine, Rootlist, Secret,
    StorageError, Ticket,
};
use crate::gateway::{AccountId, SessionState};
use crate::models::User;
use crate::worker_model::{recent_drops, Live, Outcome, WorkerModel};

verus! {

// ---- stored sign-ins ----------------------------------------------------------------

/// At launch a stored sign-in that has every permission that is needed is used: its
/// tokens are held, its session is being signed in, and whose account it is is
/// found out. Nobody is told to be signed out.
pub proof fn a_stored_sign_in_is_restored(
    state: WorkerModel,
    source: ApiSource,
    token: StoredToken,
    warning: Option<StorageError>,
    live: Live,
)
    requires
        !state.network.restoring_proxy,
        source == ApiSource::Personal ==> (state.sign_in.web_client_id matches Some(id) && id@
            == token.client_id@),
        forall|i: int|
            0 <= i < state.scopes.len() ==> has_word(token.scope@, (#[trigger] state.scopes[i])@),
    ensures
        ({
            let (slot, epoch) = match source {
                ApiSource::Shared => (Slot::Shared, state.credentials.shared),
                ApiSource::Personal => (Slot::Personal, state.credentials.personal),
            };
            let lease = Lease { slot, epoch };
            let after = Outcome::start(state).step(
                Command::CredentialsRestored {
                    slot,
                    lease,
                    result: Ok(Loaded { grant: Some(Grant::Web(token)), warning }),
                },
                live,
            );
            let warned = match warning {
                Some(error) => seq![Effect::Emit(Notice::Error(Message::Storage(error)))],
                None => Seq::<Effect>::empty(),
            };
            let told = if state.sign_in.signed_in {
                Seq::<Effect>::empty()
            } else {
                seq![Effect::Emit(Notice::Event(Event::Auth(AuthStatus::Connecting)))]
            };
            &&& after.effects == warned + told + seq![
                Effect::Verify { source, token, lease, attempt: state.sign_in.attempt },
            ]
            &&& match source {
                ApiSource::Shared => after.state.sign_in.shared_tokens && after.state.shared
                    is Authorizing && after.state.personal == state.personal
                    && after.state.sign_in.personal_tokens == state.sign_in.personal_tokens,
                ApiSource::Personal => after.state.sign_in.personal_tokens && after.state.personal
                    is Authorizing && after.state.shared == state.shared
                    && after.state.sign_in.shared_tokens == state.sign_in.shared_tokens,
            }
            &&& after.state.credentials == state.credentials
            &&& after.state.sign_in.signed_in == state.sign_in.signed_in
            &&& after.state.playback == state.playback
        }),
{
    reveal(Outcome::obey);
    reveal(Outcome::on_credentials_restored);
    reveal(Outcome::use_loaded);
    reveal(Outcome::use_grant);
    reveal(Outcome::on_web_signed_in);
    reveal(Outcome::clear_without_tokens);
    reveal(Outcome::tell_if_signed_out);
    let (slot, epoch) = match source {
        ApiSource::Shared => (Slot::Shared, state.credentials.shared),
        ApiSource::Personal => (Slot::Personal, state.credentials.personal),
    };
    let after = Outcome::start(state).step(
        Command::CredentialsRestored {
            slot,
            lease: Lease { slot, epoch },
            result: Ok(Loaded { grant: Some(Grant::Web(token)), warning }),
        },
        live,
    );
    let warned = match warning {
        Some(error) => seq![Effect::Emit(Notice::Error(Message::Storage(error)))],
        None => Seq::<Effect>::empty(),
    };
    let told = if state.sign_in.signed_in {
        Seq::<Effect>::empty()
    } else {
        seq![Effect::Emit(Notice::Event(Event::Auth(AuthStatus::Connecting)))]
    };
    assert(after.effects =~= warned + told + seq![
        Effect::Verify {
            source,
            token,
            lease: Lease { slot, epoch },
            attempt: state.sign_in.attempt,
        },
    ]);
}

/// A stored sign-in that lacks a permission is not used, and the listener is told
/// why. One of another application than the configured one is passed over, and
/// whatever is read for a lease that was withdrawn changes nothing.
pub proof fn a_stored_sign_in_may_be_of_no_use(
    state: WorkerModel,
    token: StoredToken,
    lease: Lease,
    result: Result<Loaded, StorageError>,
    slot: Slot,
    missing: int,
    live: Live,
)
    requires
        !state.network.restoring_proxy,
    ensures
        0 <= missing < state.scopes.len() && !has_word(token.scope@, state.scopes[missing]@)
            && lease == (Lease { slot: Slot::Shared, epoch: state.credentials.shared }) ==> ({
            let after = Outcome::start(state).step(
                Command::CredentialsRestored {
                    slot: Slot::Shared,
                    lease,
                    result: Ok(Loaded { grant: Some(Grant::Web(token)), warning: None }),
                },
                live,
            );
            &&& after.effects.contains(Effect::Emit(Notice::Error(Message::PermissionsChanged)))
            &&& forall|i: int|
                0 <= i < after.effects.len() ==> (#[trigger] after.effects[i]) is Emit
            &&& after.state.sign_in.shared_tokens == state.sign_in.shared_tokens
            &&& after.state.credentials == state.credentials
        }),
        (state.sign_in.web_client_id matches Some(id) ==> id@ != token.client_id@) && lease == (
        Lease { slot: Slot::Personal, epoch: state.credentials.personal }) ==> ({
            let after = Outcome::start(state).step(
                Command::CredentialsRestored {
                    slot: Slot::Personal,
                    lease,
                    result: Ok(Loaded { grant: Some(Grant::Web(token)), warning: None }),
                },
                live,
            );
            &&& forall|i: int|
                0 <= i < after.effects.len() ==> (#[trigger] after.effects[i]) is Emit
            &&& after.state.sign_in.personal_tokens == state.sign_in.personal_tokens
            &&& after.state.shared == state.shared
        }),
        (match lease.slot {
            Slot::Shared => lease.epoch != state.credentials.shared,
            Slot::Personal => lease.epoch != state.credentials.personal,
            Slot::Playback => lease.epoch != state.credentials.playback,
            Slot::Proxy => lease.epoch != state.credentials.proxy,
        }) ==> Outcome::start(state).step(
            Command::CredentialsRestored { slot, lease, result },
            live,
        ) == Outcome::start(state),
{
    reveal(Outcome::obey);
    reveal(Outcome::on_credentials_restored);
    reveal(Outcome::use_loaded);
    reveal(Outcome::use_grant);
    reveal(Outcome::clear_without_tokens);
    reveal(Outcome::tell_if_signed_out);
    if lease == (Lease { slot: Slot::Shared, epoch: state.credentials.shared }) {
        let after = Outcome::start(state).step(
            Command::CredentialsRestored {
                slot: Slot::Shared,
                lease,
                result: Ok(Loaded { grant: Some(Grant::Web(token)), warning: None }),
            },
            live,
        );
        if 0 <= missing < state.scopes.len() && !has_word(
            token.scope@,
            state.scopes[missing]@,
        ) {
            assert(after.effects[0] == Effect::Emit(Notice::Error(Message::PermissionsChanged)));
        }
    }
}

/// Once the last stored credential was read and none was found, the listener is
/// told that nobody is signed in, and no session is being signed in any more.
pub proof fn an_empty_store_signs_nobody_in(
    state: WorkerModel,
    result: Result<Loaded, StorageError>,
    live: Live,
)
    requires
        !state.network.restoring_proxy,
        !state.sign_in.signed_in,
        !state.sign_in.shared_tokens,
        !state.sign_in.personal_tokens,
        !state.sign_in.restoring.personal,
        !state.sign_in.restoring.playback,
        result matches Ok(loaded) ==> loaded.grant is None,
    ensures
        ({
            let after = Outcome::start(state).step(
                Command::CredentialsRestored {
                    slot: Slot::Shared,
                    lease: Lease { slot: Slot::Shared, epoch: state.credentials.shared },
                    result,
                },
                live,
            );
            &&& after.effects.len() > 0
            &&& after.effects.last() == Effect::Emit(
                Notice::Event(Event::Auth(AuthStatus::SignedOut)),
            )
            &&& after.state.shared is Unavailable
            &&& result matches Err(error) ==> after.effects.contains(
                Effect::Emit(Notice::Error(Message::Storage(error))),
            )
        }),
{
    reveal(Outcome::obey);
    reveal(Outcome::on_credentials_restored);
    reveal(Outcome::use_loaded);
    reveal(Outcome::use_grant);
    reveal(Outcome::clear_without_tokens);
    reveal(Outcome::tell_if_signed_out);
    let after = Outcome::start(state).step(
        Command::CredentialsRestored {
            slot: Slot::Shared,
            lease: Lease { slot: Slot::Shared, epoch: state.credentials.shared },
            result,
        },
        live,
    );
    if result is Err {
        assert(after.effects[0] == Effect::Emit(Notice::Error(Message::Storage(result->Err_0))));
    }
}

// ---- local playback -----------------------------------------------------------------

/// A playback grant of a verified account connects an engine: it is told that one
/// is being connected, and the engine signs in as that account with the token
/// that was granted, and with the settings that are in use.
pub proof fn an_authorized_engine_is_connected(
    state: WorkerModel,
    account: AccountId,
    access_token: String,
    attempt: u64,
    live: Live,
)
    requires
        !state.network.restoring_proxy,
        state.network.network_error is None,
        !state.playback.engine_busy,
        state.playback.premium != Some(false),
        account.id@.len() > 0,
        state.shared == (SessionState::Ready { account }) || (!(state.shared is Ready)
            && state.personal == (SessionState::Ready { account })),
    ensures
        ({
            let lease = Lease { slot: Slot::Playback, epoch: state.credentials.playback };
            let after = Outcome::start(state).step(
                Command::PlaybackAuthorized { access_token, lease, attempt },
                live,
            );
            &&& after.state.playback.engine_busy
            &&& !after.state.sign_in.flow_open
            &&& after.effects.len() == 2
            &&& after.effects[0] == Effect::Emit(
                Notice::Event(Event::Playback(LocalPlayback::Connecting)),
            )
            &&& after.effects[1] matches Effect::ConnectEngine {
                credentials,
                config,
                lease: given,
                session_generation,
            } && credentials.username == Some(account.id) && credentials.auth_type
                == AuthenticationType::SpotifyToken && credentials.auth_data == Secret::Text(
                access_token,
            ) && config == state.playback.engine_config && given == lease && session_generation
                == state.lookup.session_generation
        }),
{
    reveal(Outcome::obey);
    reveal(Outcome::on_playback_authorized);
    reveal(Outcome::connect_engine);
}

/// A playback grant without a verified account connects nothing: the listener is
/// told to finish signing in. Neither does one that was withdrawn, or one while the
/// network is blocked, or for an account without Premium.
pub proof fn an_engine_needs_its_account(
    state: WorkerModel,
    account: AccountId,
    access_token: String,
    lease: Lease,
    attempt: u64,
    live: Live,
)
    requires
        !state.network.restoring_proxy,
    ensures
        ({
            let after = Outcome::start(state).step(
                Command::PlaybackAuthorized { access_token, lease, attempt },
                live,
            );
            let current = lease == (Lease {
                slot: Slot::Playback,
                epoch: state.credentials.playback,
            });
            let unknown = !(state.shared is Ready) && !(state.personal is Ready);
            &&& current && unknown ==> !after.state.playback.engine_busy && after.effects == seq![
                Effect::Emit(Notice::PlaybackFailed(Message::FinishSigningIn)),
            ]
            &&& lease.slot == Slot::Playback && lease.epoch != state.credentials.playback
                ==> forall|
                i: int,
            |
                0 <= i < after.effects.len() ==> !((#[trigger] after.effects[i]) is ConnectEngine)
            &&& current && state.shared == (
                SessionState::Ready { account }
            ) && account.id@.len() > 0
                ==> (state.network.network_error matches Some(error) ==> after.effects == seq![
                Effect::Emit(Notice::PlaybackFailed(Message::Plain(error))),
            ])
            &&& current && state.shared == (
                SessionState::Ready { account }
            ) && account.id@.len() > 0
                && state.network.network_error is None && !state.playback.engine_busy
                && state.playback.premium == Some(false) ==> after.effects == seq![
                Effect::Emit(Notice::PlaybackFailed(Message::PremiumNeeded)),
            ]
        }),
{
    reveal(Outcome::obey);
    reveal(Outcome::on_playback_authorized);
    reveal(Outcome::connect_engine);
    reveal(Outcome::finish_playback_authorization);
    reveal(Outcome::start_pending);
    reveal(Outcome::sign_in_source);
}

/// The playback grant is asked for in the browser, and whatever an earlier one
/// still brings no longer counts.
pub proof fn playback_is_asked_for(state: WorkerModel, live: Live)
    requires
        !state.network.restoring_proxy,
        state.network.network_error is None,
        !state.playback.engine_busy,
        !state.sign_in.flow_open,
        state.playback.premium != Some(false),
        state.credentials.playback < u64::MAX,
        state.sign_in.attempt < u64::MAX,
    ensures
        ({
            let after = Outcome::start(state).step(Command::AuthorizePlayback, live);
            &&& after.effects == seq![
                Effect::Emit(Notice::Event(Event::Playback(LocalPlayback::Authorizing))),
                Effect::BeginPlaybackSignIn {
                    lease: Lease {
                        slot: Slot::Playback,
                        epoch: (state.credentials.playback + 1) as u64,
                    },
                    attempt: (state.sign_in.attempt + 1) as u64,
                },
            ]
            &&& after.state.sign_in.flow_open
            &&& after.state.sign_in.attempt == state.sign_in.attempt + 1
            &&& after.state.credentials.playback == state.credentials.playback + 1
            &&& after.state.credentials.shared == state.credentials.shared
            &&& after.state.credentials.personal == state.credentials.personal
            &&& after.state.playback == state.playback
        }),
{
    reveal(Outcome::obey);
    reveal(Outcome::authorize_playback);
    let after = Outcome::start(state).step(Command::AuthorizePlayback, live);
    assert(after.effects.len() == 2);
}

/// Whether a state has a verified account: that of the shared session, else that
/// of the personal one.
pub open spec fn verified(state: WorkerModel, account: AccountId) -> bool {
    ||| state.shared == (SessionState::Ready { account })
    ||| !(state.shared is Ready) && state.personal == (SessionState::Ready { account })
}

/// An engine that has connected takes over: it is the engine in use, the listener
/// is told that playback is ready, what it signs in with is kept and stored, and
/// what waited for an engine begins.
pub proof fn a_connected_engine_takes_over(
    state: WorkerModel,
    account: AccountId,
    ready: ReadyEngine,
    error: Option<Message>,
    live: Live,
)
    requires
        !state.network.restoring_proxy,
        state.sign_in.signed_in,
        !state.playback.restart_pending,
        verified(state, account),
        ready.credentials matches Some(grant) ==> (grant.username matches Some(name)
            && name@.len() > 0 && name@ == account.id@),
    ensures
        ({
            let lease = Lease { slot: Slot::Playback, epoch: state.credentials.playback };
            let after = Outcome::start(state).step(
                Command::EngineConnected {
                    session_generation: state.lookup.session_generation,
                    engine: Some(ready),
                    error,
                    lease,
                },
                live,
            );
            &&& after.state.playback.engine == Some(ready.engine)
            &&& !after.state.playback.engine_busy
            &&& after.effects.contains(
                Effect::Emit(
                    Notice::Event(
                        Event::Playback(LocalPlayback::Ready { device_id: ready.device_id }),
                    ),
                ),
            )
            &&& forall|i: int|
                0 <= i < after.effects.len() ==> !((#[trigger] after.effects[i]) is ShutdownEngine)
            &&& ready.credentials matches Some(grant) ==> after.state.playback.playback_grant
                == Some(grant) && after.effects.contains(Effect::StorePlayback { lease, grant })
            &&& ready.credentials is None ==> after.state.playback.playback_grant
                == state.playback.playback_grant
            &&& state.playback.resume matches Some(point) ==> after.state.playback.resume_verify
                == Some((point, 0u8)) && after.state.playback.resume is None
                && after.effects.contains(Effect::ScheduleResumeCheck { delay_ms: 1_500 })
            &&& state.playback.rootlist_pending ==> !after.state.playback.rootlist_pending
                && after.effects.contains(
                Effect::ReadRootlist { engine: ready.engine, generation: state.sign_in.session },
            )
            &&& after.state.drops.len() == 0
            &&& state.lookup.active is None && state.lookup.pending.len() > 0
                ==> after.effects.contains(
                Effect::LookUpAlbumType {
                    engine: ready.engine,
                    request: AlbumTypeRequest {
                        uri: state.lookup.pending[0],
                        session_generation: state.lookup.session_generation,
                        engine_generation: state.lookup.engine_generation,
                    },
                },
            )
        }),
{
    reveal(Outcome::obey);
    reveal(Outcome::on_engine_connected);
    reveal(Outcome::install_engine);
    reveal(Outcome::adopt_credentials);
    reveal(Outcome::begin_resume);
    reveal(Outcome::run_engine);
    reveal(Outcome::start_rootlist);
    reveal(Outcome::start_album_type_lookup);
    let lease = Lease { slot: Slot::Playback, epoch: state.credentials.playback };
    let after = Outcome::start(state).step(
        Command::EngineConnected {
            session_generation: state.lookup.session_generation,
            engine: Some(ready),
            error,
            lease,
        },
        live,
    );
    let stored: int = if ready.credentials is Some {
        1
    } else {
        0
    };
    let resumed: int = if state.playback.resume is Some {
        1
    } else {
        0
    };
    let listed: int = if state.playback.rootlist_pending {
        1
    } else {
        0
    };
    if ready.credentials is Some {
        assert(after.effects[0] == (Effect::StorePlayback { lease, grant: ready.credentials->0 }));
    }
    if state.playback.resume is Some {
        assert(after.effects[stored] == (Effect::ScheduleResumeCheck { delay_ms: 1_500 }));
    }
    if state.playback.rootlist_pending {
        assert(after.effects[stored + resumed] is ReadRootlist);
    }
    assert(after.effects[stored + resumed + listed] == Effect::Emit(
        Notice::Event(Event::Playback(LocalPlayback::Ready { device_id: ready.device_id })),
    ));
    if state.lookup.active is None && state.lookup.pending.len() > 0 {
        assert(after.effects[stored + resumed + listed + 1] is LookUpAlbumType);
    }
}

/// An engine that could not be connected is told, with the reason when there is
/// one, and another can be connected.
pub proof fn a_failed_engine_is_told(
    state: WorkerModel,
    error: Option<Message>,
    live: Live,
)
    requires
        !state.network.restoring_proxy,
        state.sign_in.signed_in,
        !state.playback.restart_pending,
    ensures
        ({
            let after = Outcome::start(state).step(
                Command::EngineConnected {
                    session_generation: state.lookup.session_generation,
                    engine: None,
                    error,
                    lease: Lease { slot: Slot::Playback, epoch: state.credentials.playback },
                },
                live,
            );
            &&& after.effects == seq![
                Effect::Emit(
                    Notice::PlaybackFailed(
                        match error {
                            Some(message) => message,
                            None => Message::PlaybackUnavailable,
                        },
                    ),
                ),
            ]
            &&& !after.state.playback.engine_busy
            &&& after.state.playback.resume is None
            &&& after.state.playback.engine == state.playback.engine
        }),
{
    reveal(Outcome::obey);
    reveal(Outcome::on_engine_connected);
    let after = Outcome::start(state).step(
        Command::EngineConnected {
            session_generation: state.lookup.session_generation,
            engine: None,
            error,
            lease: Lease { slot: Slot::Playback, epoch: state.credentials.playback },
        },
        live,
    );
    assert(after.effects.len() == 1);
}

/// Whether the engine of a state, if any, is shut down and another is connected,
/// with the credentials that are kept and the settings that are in use afterwards.
pub open spec fn engine_replaced(
    state: WorkerModel,
    effects: Seq<Effect>,
    after: WorkerModel,
    grant: Arc<PlaybackCredentials>,
    live: Live,
) -> bool {
    let down: int = if state.playback.engine is Some {
        1
    } else {
        0
    };
    &&& effects.len() == down + 2
    &&& state.playback.engine matches Some(engine) ==> effects[0] == Effect::ShutdownEngine(engine)
    &&& effects[down] == Effect::Emit(Notice::Event(Event::Playback(LocalPlayback::Connecting)))
    &&& effects[down + 1] == (Effect::ConnectEngine {
        credentials: grant,
        config: after.playback.engine_config,
        lease: Lease { slot: Slot::Playback, epoch: state.credentials.playback },
        session_generation: state.lookup.session_generation,
    })
    &&& after.playback.engine is None
    &&& after.playback.engine_busy
    &&& after.playback.playback_grant == Some(grant)
    &&& state.playback.engine is Some ==> after.playback.resume == live.resume_point
    &&& state.playback.engine is None ==> after.playback.resume == state.playback.resume
}

/// A session that dropped is connected again, with the credentials that are kept,
/// to go on where the last engine was. New audio settings do the same.
pub proof fn a_dropped_engine_is_replaced(
    state: WorkerModel,
    account: AccountId,
    grant: Arc<PlaybackCredentials>,
    config: EngineConfig,
    live: Live,
)
    requires
        !state.network.restoring_proxy,
        state.network.network_error is None,
        state.sign_in.signed_in,
        !state.playback.engine_busy,
        state.playback.premium != Some(false),
        state.playback.playback_grant == Some(grant),
        verified(state, account),
        grant.username matches Some(name) && name@ == account.id@,
    ensures
        recent_drops(state.drops, live.now_ms).len() < 6 ==> ({
            let after = Outcome::start(state).step(Command::Reconnect, live);
            &&& engine_replaced(state, after.effects, after.state, grant, live)
            &&& after.state.playback.engine_config == state.playback.engine_config
            &&& after.state.drops.len() > 0
            &&& after.state.drops.last() == live.now_ms
        }),
        ({
            let after = Outcome::start(state).step(Command::RestartEngine(config), live);
            &&& engine_replaced(state, after.effects, after.state, grant, live)
            &&& after.state.playback.engine_config.audio == config.audio
            &&& after.state.playback.engine_config.proxy == state.playback.engine_config.proxy
            &&& after.state.drops == state.drops
        }),
{
    reveal(Outcome::obey);
    reveal(Outcome::reconnect_engine);
    reveal(Outcome::replace_engine);
    reveal(Outcome::take_engine_for_resume);
    reveal(Outcome::resume_engine);
    reveal(Outcome::connect_engine);
}

/// While an engine is being connected, new settings wait for it: it is not used,
/// and another is connected once it has come.
pub proof fn changed_settings_reach_the_next_engine(
    state: WorkerModel,
    account: AccountId,
    grant: Arc<PlaybackCredentials>,
    config: EngineConfig,
    engine: Option<ReadyEngine>,
    error: Option<Message>,
    live: Live,
)
    requires
        !state.network.restoring_proxy,
        state.network.network_error is None,
        state.sign_in.signed_in,
        state.playback.engine_busy,
        state.playback.engine is None,
        state.playback.premium != Some(false),
        state.playback.playback_grant == Some(grant),
        verified(state, account),
        grant.username matches Some(name) && name@ == account.id@,
    ensures
        ({
            let lease = Lease { slot: Slot::Playback, epoch: state.credentials.playback };
            let waiting = Outcome::start(state).step(Command::RestartEngine(config), live);
            let after = Outcome::start(waiting.state).step(
                Command::EngineConnected {
                    session_generation: state.lookup.session_generation,
                    engine,
                    error,
                    lease,
                },
                live,
            );
            &&& waiting.effects.len() == 0
            &&& engine matches Some(ready) ==> after.effects.len() > 0 && after.effects[0]
                == Effect::ShutdownEngine(ready.engine)
            &&& after.effects.len() >= 2
            &&& after.effects.last() == (Effect::ConnectEngine {
                credentials: grant,
                config: EngineConfig {
                    proxy: state.playback.engine_config.proxy,
                    audio: config.audio,
                },
                lease,
                session_generation: state.lookup.session_generation,
            })
            &&& after.state.playback.engine is None
            &&& after.state.playback.engine_busy
            &&& !after.state.playback.restart_pending
        }),
{
    reveal(Outcome::obey);
    reveal(Outcome::replace_engine);
    reveal(Outcome::on_engine_connected);
    reveal(Outcome::resume_engine);
    reveal(Outcome::connect_engine);
}

/// What the player is told goes to the engine; without one the listener is told
/// that there is none. A pickup that does not play yet is tried again.
pub proof fn the_engine_gets_its_commands(
    state: WorkerModel,
    engine: Ticket,
    command: Ticket,
    point: Ticket,
    tries: u8,
    live: Live,
)
    requires
        !state.network.restoring_proxy,
    ensures
        state.playback.engine == Some(engine) ==> Outcome::start(state).step(
            Command::Player(command),
            live,
        ) == (Outcome { state, effects: seq![Effect::EngineCommand { engine, command }] }),
        state.playback.engine is None ==> Outcome::start(state).step(
            Command::Player(command),
            live,
        ) == (Outcome {
            state,
            effects: seq![Effect::Emit(Notice::Error(Message::NoLocalPlayback))],
        }),
        state.playback.engine == Some(engine) && state.playback.resume_verify == Some(
            (point, tries),
        ) && tries < 3 && !live.playing ==> ({
            let after = Outcome::start(state).step(Command::VerifyResume, live);
            &&& after.effects == seq![
                Effect::Resume { engine, point },
                Effect::ScheduleResumeCheck { delay_ms: 4_000 },
            ]
            &&& after.state.playback.resume_verify == Some((point, (tries + 1) as u8))
        }),
        state.playback.resume_verify is None || live.playing ==> ({
            let after = Outcome::start(state).step(Command::VerifyResume, live);
            after.effects.len() == 0 && after.state.playback.resume_verify is None
        }),
        state.playback.engine == Some(engine) ==> Outcome::start(state).step(
            Command::Shutdown,
            live,
        ).effects == seq![Effect::ShutdownEngine(engine), Effect::Stop],
        state.playback.engine is None ==> Outcome::start(state).step(
            Command::Shutdown,
            live,
        ).effects == seq![Effect::Stop],
{
    reveal(Outcome::obey);
    reveal(Outcome::verify_resume);
    reveal(Outcome::drop_engine);
    let o = Outcome::start(state);
    assert(o.step(Command::Player(command), live).effects =~= match state.playback.engine {
        Some(engine) => seq![Effect::EngineCommand { engine, command }],
        None => seq![Effect::Emit(Notice::Error(Message::NoLocalPlayback))],
    });
    assert(o.step(Command::Shutdown, live).effects =~= match state.playback.engine {
        Some(engine) => seq![Effect::ShutdownEngine(engine), Effect::Stop],
        None => seq![Effect::Stop],
    });
}

/// The playlist tree is read by the engine, and told once it was read for the
/// session that is signed in; without an engine the wish is remembered.
pub proof fn the_playlist_tree_is_read(
    state: WorkerModel,
    engine: Ticket,
    generation: u64,
    result: Result<Rootlist, String>,
    live: Live,
)
    requires
        !state.network.restoring_proxy,
    ensures
        state.sign_in.signed_in && state.playback.engine == Some(engine) ==> Outcome::start(
            state,
        ).step(Command::Rootlist, live).effects == seq![
            Effect::ReadRootlist { engine, generation: state.sign_in.session },
        ],
        state.sign_in.signed_in && state.playback.engine is None ==> ({
            let after = Outcome::start(state).step(Command::Rootlist, live);
            after.effects.len() == 0 && after.state.playback.rootlist_pending
        }),
        !state.sign_in.signed_in ==> Outcome::start(state).step(Command::Rootlist, live)
            == Outcome::start(state),
        Outcome::start(state).step(Command::RootlistFinished { generation, result }, live) == (
        Outcome {
            state,
            effects: if state.sign_in.signed_in && generation == state.sign_in.session {
                seq![Effect::Emit(Notice::Event(Event::Rootlist { result }))]
            } else {
                Seq::<Effect>::empty()
            },
        }),
{
    reveal(Outcome::obey);
    reveal(Outcome::fetch_rootlist);
    reveal(Outcome::start_rootlist);
    reveal(Outcome::on_rootlist_finished);
    let o = Outcome::start(state);
    assert(o.step(Command::RootlistFinished { generation, result }, live).effects =~= if
        state.sign_in.signed_in && generation == state.sign_in.session {
        seq![Effect::Emit(Notice::Event(Event::Rootlist { result }))]
    } else {
        Seq::<Effect>::empty()
    });
    assert(o.step(Command::Rootlist, live).effects.len() <= 1);
}

// ---- searches and requests ----------------------------------------------------------

/// A search asks for everything: with one request, or, when the personal
/// application is signed in, with one for playlists and one for all else. What the
/// last search asked for is cancelled first, and the start of this one is told.
pub proof fn a_search_asks_for_everything(
    state: WorkerModel,
    query: String,
    serial: u64,
    live: Live,
)
    requires
        !state.network.restoring_proxy,
        query@.len() > 0,
        state.tasks.next_task + 2 <= u64::MAX,
    ensures
        ({
            let after = Outcome::start(state).step(
                Command::Api(ApiRequest::Search { query, serial }),
                live,
            );
            let cancelled = state.searches.len() as int;
            let first = state.tasks.next_task;
            let split = state.personal is Ready;
            &&& after.effects.len() == cancelled + (if split {
                3int
            } else {
                2int
            })
            &&& forall|i: int|
                0 <= i < cancelled ==> (#[trigger] after.effects[i]) == (Effect::CancelTask {
                    task: state.searches[i],
                })
            &&& after.effects[cancelled] == Effect::Emit(
                Notice::Event(
                    Event::Api(Box::new(ApiResponse::SearchStarted { query, serial, split })),
                ),
            )
            &&& sends(
                after.effects[cancelled + 1],
                state,
                first,
                if split {
                    ApiRequest::SearchPlaylists { query, serial }
                } else {
                    ApiRequest::Search { query, serial }
                },
            )
            &&& split ==> sends(
                after.effects[cancelled + 2],
                state,
                (first + 1) as u64,
                ApiRequest::SearchCatalogue { query, serial },
            )
            &&& after.state.searches == if split {
                seq![first, (first + 1) as u64]
            } else {
                seq![first]
            }
        }),
{
    reveal(Outcome::obey);
    reveal(Outcome::search);
    reveal(Outcome::search_dispatch);
    reveal(Outcome::cancel_search);
    reveal(Outcome::dispatch);
    let after = Outcome::start(state).step(
        Command::Api(ApiRequest::Search { query, serial }),
        live,
    );
    assert(after.state.searches =~= if state.personal is Ready {
        seq![state.tasks.next_task, (state.tasks.next_task + 1) as u64]
    } else {
        seq![state.tasks.next_task]
    });
}

/// Whether an effect sends a request, as a task of its own, for the session and
/// under the grants of a state.
pub open spec fn sends(effect: Effect, state: WorkerModel, number: u64, asked: ApiRequest) -> bool {
    effect matches Effect::Dispatch {
        task,
        request,
        generation,
        background,
        engine,
        shared_lease,
        personal_lease,
    } && background == asked.background_spec() && task == number && request == asked
        && generation == state.sign_in.session && engine
        == state.playback.engine && shared_lease == (Lease {
        slot: Slot::Shared,
        epoch: state.credentials.shared,
    }) && personal_lease == (Lease { slot: Slot::Personal, epoch: state.credentials.personal })
}

/// Any other request is sent as it is, as a task of its own.
pub proof fn a_request_is_sent(state: WorkerModel, request: ApiRequest, live: Live)
    requires
        !state.network.restoring_proxy,
        !(request is Search),
        state.tasks.next_task < u64::MAX,
    ensures
        ({
            let after = Outcome::start(state).step(Command::Api(request), live);
            &&& after.effects.len() > 0
            &&& sends(after.effects[0], state, state.tasks.next_task, request)
            &&& after.state.tasks.next_task == state.tasks.next_task + 1
            &&& forall|i: int|
                1 <= i < after.effects.len() ==> request is NewReleases && ((
                #[trigger] after.effects[i]) matches Effect::CancelTask { task } && Some(task)
                    == state.tasks.release_task)
        }),
{
    reveal(Outcome::obey);
    reveal(Outcome::dispatch);
}

// ---- waiting for the network --------------------------------------------------------

/// While the proxy's password is being read, a command waits behind the others, unless it
/// is about the network settings, the sign-in, or the end of the program.
pub proof fn commands_wait_for_the_network(state: WorkerModel, command: Command, live: Live)
    requires
        state.network.restoring_proxy,
        !(command is ProxyRestored),
        !(command is ApplyProxy),
        !(command is SignIn),
        !(command is SignOut),
        !(command is CancelSignIn),
        !(command is Shutdown),
    ensures
        ({
            let after = Outcome::start(state).step(command, live);
            &&& after.effects.len() == 0
            &&& after.state.waiting == state.waiting.push(command)
            &&& after.state.sign_in == state.sign_in && after.state.playback == state.playback
                && after.state.network == state.network && after.state.shared == state.shared
                && after.state.personal == state.personal && after.state.credentials
                == state.credentials
        }),
        state.playback.engine is None ==> Outcome::start(state).step(
            Command::Shutdown,
            live,
        ).effects == seq![Effect::Stop],
{
    reveal(Outcome::obey);
    reveal(Outcome::drop_engine);
    if state.playback.engine is None {
        assert(Outcome::start(state).step(Command::Shutdown, live).effects =~= seq![Effect::Stop]);
    }
}

// ---- an account and its engine ------------------------------------------------------

/// Credentials that are kept for the verified account connect an engine as soon as they
/// are read.
pub proof fn a_stored_playback_grant_connects_an_engine(
    state: WorkerModel,
    account: AccountId,
    grant: Arc<PlaybackCredentials>,
    live: Live,
)
    requires
        !state.network.restoring_proxy,
        state.network.network_error is None,
        state.sign_in.signed_in,
        state.playback.engine is None,
        !state.playback.engine_busy,
        state.playback.premium != Some(false),
        verified(state, account),
        grant.username matches Some(name) && name@ == account.id@,
    ensures
        ({
            let lease = Lease { slot: Slot::Playback, epoch: state.credentials.playback };
            let after = Outcome::start(state).step(
                Command::CredentialsRestored {
                    slot: Slot::Playback,
                    lease,
                    result: Ok(Loaded { grant: Some(Grant::Playback(grant)), warning: None }),
                },
                live,
            );
            &&& engine_replaced(state, after.effects, after.state, grant, live)
            &&& after.state.playback.engine_config == state.playback.engine_config
        }),
{
    reveal(Outcome::obey);
    reveal(Outcome::on_credentials_restored);
    reveal(Outcome::use_loaded);
    reveal(Outcome::use_grant);
    reveal(Outcome::resume_engine);
    reveal(Outcome::connect_engine);
    reveal(Outcome::clear_without_tokens);
    reveal(Outcome::tell_if_signed_out);
}

/// Credentials that are read before anybody is signed in are kept for later, and connect
/// an engine once Spotify has said who the listener is.
pub proof fn a_playback_grant_waits_for_its_account(
    state: WorkerModel,
    account: AccountId,
    grant: Arc<PlaybackCredentials>,
    user: User,
    shared_lease: Lease,
    personal_lease: Lease,
    live: Live,
)
    requires
        !state.network.restoring_proxy,
        state.network.network_error is None,
        state.playback.engine is None,
        !state.playback.engine_busy,
        grant.username matches Some(name) && name@ == account.id@,
        user.id@ == account.id@,
        user.product matches Some(product) ==> product@ == "premium"@,
    ensures
        !state.sign_in.signed_in ==> Outcome::start(state).step(
            Command::CredentialsRestored {
                slot: Slot::Playback,
                lease: Lease { slot: Slot::Playback, epoch: state.credentials.playback },
                result: Ok(Loaded { grant: Some(Grant::Playback(grant)), warning: None }),
            },
            live,
        ).state.playback.playback_grant == Some(grant),
        state.sign_in.signed_in && verified(state, account) && state.playback.playback_grant
            == Some(grant) ==> ({
            let after = Outcome::start(state).step(
                Command::ApiFinished {
                    generation: state.sign_in.session,
                    response: Box::new(ApiResponse::Me(Ok(user))),
                    expired: None,
                    shared_lease,
                    personal_lease,
                },
                live,
            );
            &&& after.effects.len() == 3
            &&& after.effects[1] == (Effect::ConnectEngine {
                credentials: grant,
                config: state.playback.engine_config,
                lease: Lease { slot: Slot::Playback, epoch: state.credentials.playback },
                session_generation: state.lookup.session_generation,
            })
            &&& after.state.playback.engine_busy
        }),
{
    reveal(Outcome::obey);
    reveal(Outcome::on_credentials_restored);
    reveal(Outcome::use_loaded);
    reveal(Outcome::use_grant);
    reveal(Outcome::resume_engine);
    reveal(Outcome::connect_engine);
    reveal(Outcome::clear_without_tokens);
    reveal(Outcome::tell_if_signed_out);
    reveal(Outcome::api_finished);
    reveal(Outcome::on_account_checked);
}

/// Credentials of another account connect nothing, and that is told; an engine that turns
/// out to be another account's is shut down.
pub proof fn another_accounts_engine_is_not_used(
    state: WorkerModel,
    account: AccountId,
    grant: Arc<PlaybackCredentials>,
    ready: ReadyEngine,
    error: Option<Message>,
    live: Live,
)
    requires
        !state.network.restoring_proxy,
        state.sign_in.signed_in,
        verified(state, account),
        grant.username matches Some(name) && name@ != account.id@,
        ready.credentials == Some(grant),
    ensures
        state.playback.engine is None && !state.playback.engine_busy && state.playback.premium
            != Some(false) ==> Outcome::start(state).step(
            Command::CredentialsRestored {
                slot: Slot::Playback,
                lease: Lease { slot: Slot::Playback, epoch: state.credentials.playback },
                result: Ok(Loaded { grant: Some(Grant::Playback(grant)), warning: None }),
            },
            live,
        ).effects == seq![Effect::Emit(Notice::PlaybackFailed(Message::StoredForAnother))],
        !state.playback.restart_pending ==> ({
            let after = Outcome::start(state).step(
                Command::EngineConnected {
                    session_generation: state.lookup.session_generation,
                    engine: Some(ready),
                    error,
                    lease: Lease { slot: Slot::Playback, epoch: state.credentials.playback },
                },
                live,
            );
            &&& after.effects == seq![
                Effect::ShutdownEngine(ready.engine),
                Effect::Emit(Notice::PlaybackFailed(Message::AuthorizedForAnother)),
            ]
            &&& after.state.playback.engine == state.playback.engine
            &&& after.state.playback.playback_grant == state.playback.playback_grant
        }),
{
    reveal(Outcome::obey);
    reveal(Outcome::on_credentials_restored);
    reveal(Outcome::use_loaded);
    reveal(Outcome::use_grant);
    reveal(Outcome::resume_engine);
    reveal(Outcome::clear_without_tokens);
    reveal(Outcome::tell_if_signed_out);
    reveal(Outcome::on_engine_connected);
    reveal(Outcome::install_engine);
    let o = Outcome::start(state);
    let lease = Lease { slot: Slot::Playback, epoch: state.credentials.playback };
    if state.playback.engine is None && !state.playback.engine_busy && state.playback.premium
        != Some(false) {
        assert(o.step(
            Command::CredentialsRestored {
                slot: Slot::Playback,
                lease,
                result: Ok(Loaded { grant: Some(Grant::Playback(grant)), warning: None }),
            },
            live,
        ).effects.len() == 1);
    }
    if !state.playback.restart_pending {
        assert(o.step(
            Command::EngineConnected {
                session_generation: state.lookup.session_generation,
                engine: Some(ready),
                error,
                lease,
            },
            live,
        ).effects.len() == 2);
    }
}

/// A dropped session counts for ten minutes and no longer, each for itself.
pub proof fn recent_drops_are_told_from_old_ones(drops: Seq<u64>, now_ms: u64, at: u64)
    ensures
        recent_drops(drops.push(at), now_ms) == if at > now_ms || now_ms - at < 600_000 {
            recent_drops(drops, now_ms).push(at)
        } else {
            recent_drops(drops, now_ms)
        },
        recent_drops(Seq::empty(), now_ms).len() == 0,
{
    reveal(recent_drops);
    reveal(Seq::filter);
    assert(drops.push(at).drop_last() =~= drops);
}

/// A worker starts with nothing: nobody is signed in, nothing is held, nothing is under
/// way, and the settings are those it was given.
pub proof fn a_worker_starts_with_nothing(
    engine_config: EngineConfig,
    web_client_id: Option<String>,
    client_problem: Option<String>,
    network_error: Option<String>,
    scopes: Seq<String>,
)
    ensures
        ({
            let start = WorkerModel::initial(
                engine_config,
                web_client_id,
                client_problem,
                network_error,
                scopes,
            );
            &&& start.shared is Unavailable && start.personal is Unavailable
            &&& !start.sign_in.signed_in && !start.sign_in.shared_tokens
                && !start.sign_in.personal_tokens && !start.sign_in.flow_open
            &&& start.sign_in.authorizing is None && start.sign_in.pending is None
            &&& start.sign_in.web_client_id == web_client_id && start.sign_in.client_problem
                == client_problem
            &&& start.playback.engine is None && start.playback.playback_grant is None
                && !start.playback.engine_busy && start.playback.premium is None
                && start.playback.engine_config == engine_config
            &&& start.network.network_error == network_error && start.network.proxy_revision == 0
            &&& start.waiting.len() == 0 && start.searches.len() == 0 && start.drops.len() == 0
            &&& start.scopes == scopes
        }),
{
}

// ---- what stands in the way ---------------------------------------------------------

/// Playback is not asked for while the network is blocked, which is told, without Premium,
/// which is told, or while an engine is being connected or a browser is open.
pub proof fn playback_may_not_be_asked_for(state: WorkerModel, live: Live)
    requires
        !state.network.restoring_proxy,
    ensures
        ({
            let after = Outcome::start(state).step(Command::AuthorizePlayback, live);
            let free = state.network.network_error is None && !state.playback.engine_busy
                && !state.sign_in.flow_open;
            &&& state.network.network_error matches Some(error) ==> after == (Outcome {
                state,
                effects: seq![Effect::Emit(Notice::Error(Message::Plain(error)))],
            })
            &&& state.network.network_error is None && (state.playback.engine_busy
                || state.sign_in.flow_open) ==> after == Outcome::start(state)
            &&& free && state.playback.premium == Some(false) ==> after == (Outcome {
                state,
                effects: seq![Effect::Emit(Notice::PlaybackFailed(Message::PremiumNeeded))],
            })
        }),
{
    reveal(Outcome::obey);
    reveal(Outcome::authorize_playback);
    let after = Outcome::start(state).step(Command::AuthorizePlayback, live);
    if state.network.network_error is Some {
        assert(after.effects =~= seq![
            Effect::Emit(Notice::Error(Message::Plain(state.network.network_error->0))),
        ]);
    } else if !state.playback.engine_busy && !state.sign_in.flow_open && state.playback.premium
        == Some(false) {
        assert(after.effects =~= seq![
            Effect::Emit(Notice::PlaybackFailed(Message::PremiumNeeded)),
        ]);
    }
}

/// An engine that comes for another session, for a grant that was withdrawn, or when nobody
/// is signed in, is shut down, and nothing else happens.
pub proof fn an_engine_that_comes_too_late_is_shut_down(
    state: WorkerModel,
    session_generation: u64,
    ready: ReadyEngine,
    error: Option<Message>,
    lease: Lease,
    live: Live,
)
    requires
        !state.network.restoring_proxy,
        lease.slot == Slot::Playback,
        session_generation != state.lookup.session_generation || lease.epoch
            != state.credentials.playback || !state.sign_in.signed_in,
    ensures
        Outcome::start(state).step(
            Command::EngineConnected { session_generation, engine: Some(ready), error, lease },
            live,
        ) == (Outcome { state, effects: seq![Effect::ShutdownEngine(ready.engine)] }),
        Outcome::start(state).step(
            Command::EngineConnected { session_generation, engine: None, error, lease },
            live,
        ) == Outcome::start(state),
{
    reveal(Outcome::obey);
    reveal(Outcome::on_engine_connected);
    assert(Outcome::start(state).step(
        Command::EngineConnected { session_generation, engine: Some(ready), error, lease },
        live,
    ).effects =~= seq![Effect::ShutdownEngine(ready.engine)]);
}

/// After the sixth drop within ten minutes nothing is connected again: the engine is shut
/// down, and the listener is told that playback keeps dropping.
pub proof fn a_session_that_keeps_dropping_is_given_up(state: WorkerModel, live: Live)
    requires
        !state.network.restoring_proxy,
        state.sign_in.signed_in,
        !state.playback.engine_busy,
        recent_drops(state.drops, live.now_ms).len() >= 6,
    ensures
        ({
            let after = Outcome::start(state).step(Command::Reconnect, live);
            &&& after.effects == (match state.playback.engine {
                Some(engine) => seq![Effect::ShutdownEngine(engine)],
                None => Seq::<Effect>::empty(),
            }) + seq![Effect::Emit(Notice::PlaybackFailed(Message::KeepsDropping))]
            &&& after.state.playback.engine is None
            &&& after.state.playback.resume is None
            &&& !after.state.playback.engine_busy
        }),
{
    reveal(Outcome::obey);
    reveal(Outcome::reconnect_engine);
    reveal(Outcome::take_engine_for_resume);
    let after = Outcome::start(state).step(Command::Reconnect, live);
    assert(after.effects =~= (match state.playback.engine {
        Some(engine) => seq![Effect::ShutdownEngine(engine)],
        None => Seq::<Effect>::empty(),
    }) + seq![Effect::Emit(Notice::PlaybackFailed(Message::KeepsDropping))]);
}

/// The lookup that an engine was working on is the first that the next engine gets.
pub proof fn a_new_engine_goes_on_with_the_lookups(
    state: WorkerModel,
    config: EngineConfig,
    live: Live,
)
    requires
        !state.network.restoring_proxy,
        state.sign_in.signed_in,
        !state.playback.engine_busy,
    ensures
        ({
            let after = Outcome::start(state).step(Command::RestartEngine(config), live).state;
            &&& state.lookup.active matches Some(request) ==> after.lookup.pending == seq![
                request.uri,
            ] + state.lookup.pending
            &&& state.lookup.active is None ==> after.lookup.pending == state.lookup.pending
            &&& after.lookup.active is None
            &&& after.lookup.seen == state.lookup.seen
            &&& after.lookup.engine_generation != state.lookup.engine_generation
            &&& after.lookup.session_generation == state.lookup.session_generation
        }),
{
    reveal(Outcome::obey);
    reveal(Outcome::replace_engine);
    reveal(Outcome::take_engine_for_resume);
    reveal(Outcome::resume_engine);
    reveal(Outcome::connect_engine);
}

/// An account that turns out to be without Premium loses its engine; where playback was set
/// up, the listener is told why.
pub proof fn an_account_without_premium_loses_its_engine(
    state: WorkerModel,
    account: AccountId,
    user: User,
    shared_lease: Lease,
    personal_lease: Lease,
    live: Live,
)
    requires
        !state.network.restoring_proxy,
        state.sign_in.signed_in,
        verified(state, account),
        user.id@ == account.id@,
        user.product matches Some(product) && product@ != "premium"@,
    ensures
        ({
            let response = Box::new(ApiResponse::Me(Ok(user)));
            let after = Outcome::start(state).step(
                Command::ApiFinished {
                    generation: state.sign_in.session,
                    response,
                    expired: None,
                    shared_lease,
                    personal_lease,
                },
                live,
            );
            &&& after.effects == (match state.playback.engine {
                Some(engine) => seq![Effect::ShutdownEngine(engine)],
                None => Seq::<Effect>::empty(),
            }) + (match state.playback.playback_grant {
                Some(_) => seq![Effect::Emit(Notice::PlaybackFailed(Message::PremiumNeeded))],
                None => Seq::<Effect>::empty(),
            }) + seq![Effect::Emit(Notice::Event(Event::Api(response)))]
            &&& after.state.playback.engine is None
            &&& after.state.playback.premium == Some(false)
            &&& after.state.lookup.pending.len() == 0 && after.state.lookup.active is None
        }),
{
    reveal(Outcome::obey);
    reveal(Outcome::api_finished);
    reveal(Outcome::on_account_checked);
    reveal(Outcome::drop_engine);
    let response = Box::new(ApiResponse::Me(Ok(user)));
    let after = Outcome::start(state).step(
        Command::ApiFinished {
            generation: state.sign_in.session,
            response,
            expired: None,
            shared_lease,
            personal_lease,
        },
        live,
    );
    assert(after.effects =~= (match state.playback.engine {
        Some(engine) => seq![Effect::ShutdownEngine(engine)],
        None => Seq::<Effect>::empty(),
    }) + (match state.playback.playback_grant {
        Some(_) => seq![Effect::Emit(Notice::PlaybackFailed(Message::PremiumNeeded))],
        None => Seq::<Effect>::empty(),
    }) + seq![Effect::Emit(Notice::Event(Event::Api(response)))]);
}

/// A search for nothing cancels the last one, and asks for nothing. A new scan cancels the
/// one before it.
pub proof fn an_empty_search_and_a_new_scan_cancel(
    state: WorkerModel,
    query: String,
    serial: u64,
    scan: ApiRequest,
    task: u64,
    live: Live,
)
    requires
        !state.network.restoring_proxy,
        query@.len() == 0,
        scan is NewReleases,
        state.tasks.next_task < u64::MAX,
    ensures
        ({
            let after = Outcome::start(state).step(
                Command::Api(ApiRequest::Search { query, serial }),
                live,
            );
            &&& after.effects.len() == state.searches.len()
            &&& forall|i: int|
                0 <= i < after.effects.len() ==> (#[trigger] after.effects[i]) == (
                Effect::CancelTask { task: state.searches[i] })
            &&& after.state.searches.len() == 0
        }),
        state.tasks.release_task == Some(task) ==> Outcome::start(state).step(
            Command::Api(scan),
            live,
        ).effects.last() == (Effect::CancelTask { task }),
        Outcome::start(state).step(Command::Api(scan), live).state.tasks.release_task == Some(
            state.tasks.next_task,
        ),
        state.tasks.release_task is None ==> Outcome::start(state).step(
            Command::Api(scan),
            live,
        ).effects.len() == 1,
{
    reveal(Outcome::obey);
    reveal(Outcome::search);
    reveal(Outcome::cancel_search);
    reveal(Outcome::dispatch);
}

/// Requests that nobody is waiting for are sent in the background, and all others are not.
pub proof fn some_requests_stay_in_the_background(request: ApiRequest)
    ensures
        request.background_spec() == (request is NewReleases || request is PlaybackState || request
            is RecentlyPlayed || request is TopTracks || request is TopArtists || request
            is Recommendations || request is Discover || request is MyPlaylists || request
            is PlaylistSample || request is Contains),
{
}

/// While another stored credential is still being read, or a grant is held, nobody is told
/// to be signed out; an application without a grant is not being signed in any more.
pub proof fn nobody_is_signed_out_too_early(
    state: WorkerModel,
    result: Result<Loaded, StorageError>,
    live: Live,
)
    requires
        !state.network.restoring_proxy,
        result matches Ok(loaded) ==> loaded.grant is None,
        !state.sign_in.personal_tokens,
    ensures
        ({
            let after = Outcome::start(state).step(
                Command::CredentialsRestored {
                    slot: Slot::Personal,
                    lease: Lease { slot: Slot::Personal, epoch: state.credentials.personal },
                    result,
                },
                live,
            );
            let told = Effect::Emit(Notice::Event(Event::Auth(AuthStatus::SignedOut)));
            let early = state.sign_in.restoring.shared || state.sign_in.restoring.playback
                || state.sign_in.shared_tokens || state.sign_in.signed_in;
            &&& early ==> !after.effects.contains(told)
            &&& !early ==> after.effects.contains(told)
            &&& after.state.personal is Unavailable
            &&& after.state.shared == state.shared
            &&& !after.state.sign_in.restoring.personal
            &&& after.state.sign_in.restoring.shared == state.sign_in.restoring.shared
            &&& after.state.sign_in.restoring.playback == state.sign_in.restoring.playback
        }),
{
    reveal(Outcome::obey);
    reveal(Outcome::on_credentials_restored);
    reveal(Outcome::use_loaded);
    reveal(Outcome::use_grant);
    reveal(Outcome::clear_without_tokens);
    reveal(Outcome::tell_if_signed_out);
    let after = Outcome::start(state).step(
        Command::CredentialsRestored {
            slot: Slot::Personal,
            lease: Lease { slot: Slot::Personal, epoch: state.credentials.personal },
            result,
        },
        live,
    );
    let told = Effect::Emit(Notice::Event(Event::Auth(AuthStatus::SignedOut)));
    if after.effects.len() > 0 && after.effects.last() == told {
        assert(after.effects[after.effects.len() - 1] == told);
    }
}

} // verus!
