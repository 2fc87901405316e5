//! What comes of network settings, of answers, and of the small errands that the
//! worker runs.

use std::sync::Arc;

use vstd::prelude::*;

use crate::album_types::{AlbumTypeRequest, LookupModel};
use crate::api::ApiResponse;
use crate::credentials::{Lease, Slot};
use crate::error::ApiSource;
use crate::events::{
    Command, Effect, Event, Grant, Loaded, ManualProxy, Message, Notice, PlaybackCredentials,
    ProxyConfig, ProxyPassword, Receiver, StorageError, Ticket,
};
use crate::gateway::AccountId;
use crate::models::{PlaylistItem, User};
use crate::worker_model::{Live, Outcome, WorkerModel};
use crate::worker_promises::verified;

verus! {

// ---- network settings ---------------------------------------------------------------

/// New network settings are used from now on and answered; where they lead elsewhere
/// than the engine's, that is said. A password that was entered is stored, and one
/// that was left out is withdrawn.
pub proof fn new_settings_are_used(
    state: WorkerModel,
    request: u64,
    config: ProxyConfig,
    url: Option<String>,
    proxy: ManualProxy,
    live: Live,
)
    requires
        !state.network.restoring_proxy,
        !state.sign_in.signed_in,
        state.credentials.proxy < u64::MAX,
    ensures
        ({
            let after = Outcome::start(state).step(
                Command::ApplyProxy { request, config, built: Ok(url) },
                live,
            );
            let same = match (state.playback.engine_proxy, url) {
                (Some(a), Some(b)) => a@ == b@,
                (None, None) => true,
                _ => false,
            };
            let used = seq![
                Effect::UseProxy(config),
                Effect::Emit(
                    Notice::Event(Event::ProxyApplied { request, config, result: Ok(!same) }),
                ),
            ];
            let lease = Lease { slot: Slot::Proxy, epoch: (state.credentials.proxy + 1) as u64 };
            &&& config == ProxyConfig::Http(proxy) || config == ProxyConfig::Socks(proxy)
                ==> after.effects == used + seq![
                match proxy.password {
                    Some(password) => Effect::SaveProxyPassword { lease, password },
                    None => Effect::RevokeProxyPassword { lease },
                },
            ]
            &&& !(config is Http) && !(config is Socks) ==> after.effects == used
            &&& after.state.playback.engine_config.proxy == config
            &&& after.state.playback.engine_config.audio == state.playback.engine_config.audio
            &&& after.state.network.network_error is None
            &&& after.state.network.proxy_revision == request
        }),
{
    reveal(Outcome::obey);
    reveal(Outcome::change_proxy);
    reveal(Outcome::use_proxy);
    reveal(Outcome::replace_if);
    reveal(Outcome::replace_engine);
    reveal(Outcome::proxy_changed);
    reveal(Outcome::persist_proxy_password);
    reveal(Outcome::finish_proxy_restore);
    reveal(Outcome::sign_in_if);
    let after = Outcome::start(state).step(
        Command::ApplyProxy { request, config, built: Ok(url) },
        live,
    );
    assert(after.effects.len() == if config is Http || config is Socks {
        3int
    } else {
        2
    });
}

/// Network settings that make no proxy are answered with the reason, and change
/// nothing, whether a sign-in was to follow or not.
pub proof fn settings_without_a_proxy_are_refused(
    state: WorkerModel,
    request: u64,
    config: ProxyConfig,
    error: String,
    live: Live,
)
    ensures
        ({
            let refused = Outcome {
                state,
                effects: seq![
                    Effect::Emit(
                        Notice::Event(
                            Event::ProxyApplied { request, config, result: Err(error) },
                        ),
                    ),
                ],
            };
            let o = Outcome::start(state);
            &&& o.step(Command::ApplyProxy { request, config, built: Err(error) }, live) == refused
            &&& o.step(Command::SignIn { request, config, built: Err(error) }, live) == refused
        }),
{
    reveal(Outcome::obey);
    reveal(Outcome::change_proxy);
    let o = Outcome::start(state);
    let told = seq![
        Effect::Emit(
            Notice::Event(Event::ProxyApplied { request, config, result: Err(error) }),
        ),
    ];
    assert(o.step(Command::ApplyProxy { request, config, built: Err(error) }, live).effects
        =~= told);
    assert(o.step(Command::SignIn { request, config, built: Err(error) }, live).effects =~= told);
}

/// A stored proxy password is put into the settings, and a client is made for them;
/// without one the settings are tried as they are. Trouble with the store is told.
pub proof fn a_stored_password_is_put_to_use(
    state: WorkerModel,
    proxy: ManualProxy,
    password: ProxyPassword,
    error: StorageError,
    live: Live,
)
    requires
        state.network.proxy_revision == 0,
    ensures
        ({
            let lease = Lease { slot: Slot::Proxy, epoch: state.credentials.proxy };
            let found = Outcome::start(state).step(
                Command::ProxyRestored {
                    lease,
                    result: Ok(Loaded { grant: Some(Grant::Proxy(password)), warning: None }),
                },
                live,
            );
            let none = Outcome::start(state).step(
                Command::ProxyRestored { lease, result: Ok(Loaded { grant: None, warning: None }) },
                live,
            );
            let failed = Outcome::start(state).step(
                Command::ProxyRestored { lease, result: Err(error) },
                live,
            );
            let plain = state.playback.engine_config.proxy;
            &&& plain == ProxyConfig::Http(proxy) ==> found.effects == seq![
                Effect::BuildRestoredProxy {
                    config: ProxyConfig::Http(ManualProxy { password: Some(password), ..proxy }),
                    password: Some(password),
                    protected: true,
                },
            ]
            &&& plain == ProxyConfig::Socks(proxy) ==> found.effects == seq![
                Effect::BuildRestoredProxy {
                    config: ProxyConfig::Socks(ManualProxy { password: Some(password), ..proxy }),
                    password: Some(password),
                    protected: true,
                },
            ]
            &&& none.effects == seq![
                Effect::BuildRestoredProxy { config: plain, password: None, protected: true },
            ]
            &&& failed.effects == seq![
                Effect::Emit(Notice::Event(Event::ProxyStorageFailed(error))),
                Effect::BuildRestoredProxy { config: plain, password: None, protected: false },
            ]
            &&& found.state == state && none.state == state && failed.state == state
        }),
{
    reveal(Outcome::obey);
    reveal(Outcome::on_proxy_restored);
    let lease = Lease { slot: Slot::Proxy, epoch: state.credentials.proxy };
    let o = Outcome::start(state);
    assert(o.step(
        Command::ProxyRestored {
            lease,
            result: Ok(Loaded { grant: Some(Grant::Proxy(password)), warning: None }),
        },
        live,
    ).effects.len() == 1);
    assert(o.step(
        Command::ProxyRestored { lease, result: Ok(Loaded { grant: None, warning: None }) },
        live,
    ).effects.len() == 1);
    assert(o.step(Command::ProxyRestored { lease, result: Err(error) }, live).effects.len() == 2);
}

/// Once the network can be used at launch, the stored sign-ins are read, all three,
/// and the sessions that may come of them are waited for. Then the commands that
/// waited are handed in again, in their order.
pub proof fn the_stored_sign_ins_are_read_at_launch(
    state: WorkerModel,
    config: ProxyConfig,
    password: Option<ProxyPassword>,
    protected: bool,
    url: Option<String>,
)
    requires
        state.network.restoring_proxy,
        !state.sign_in.spotify_restore_started,
    ensures
        ({
            let after = Outcome::start(state).restored_proxy_built(
                config,
                password,
                protected,
                Ok(url),
            );
            let told = seq![
                Effect::UseProxy(config),
                Effect::Emit(Notice::Event(Event::ProxyRestored { config, password })),
            ] + (if protected {
                seq![Effect::Emit(Notice::Event(Event::ProxyPasswordStored))]
            } else {
                Seq::<Effect>::empty()
            });
            let read = seq![
                Effect::LoadCredential {
                    lease: Lease { slot: Slot::Shared, epoch: state.credentials.shared },
                },
                Effect::LoadCredential {
                    lease: Lease { slot: Slot::Personal, epoch: state.credentials.personal },
                },
                Effect::LoadCredential {
                    lease: Lease { slot: Slot::Playback, epoch: state.credentials.playback },
                },
            ];
            let released = Seq::new(
                state.waiting.len(),
                |i: int| Effect::Requeue(state.waiting[i]),
            );
            &&& after.effects == told + read + released
            &&& after.state.shared is Authorizing
            &&& after.state.sign_in.web_client_id is Some ==> after.state.personal is Authorizing
            &&& after.state.sign_in.restoring.shared && after.state.sign_in.restoring.personal
                && after.state.sign_in.restoring.playback
            &&& after.state.waiting.len() == 0
            &&& !after.state.network.restoring_proxy
            &&& after.state.network.network_error is None
            &&& after.state.playback.engine_config.proxy == config
        }),
{
    reveal(Outcome::restored_proxy_built);
    reveal(Outcome::use_proxy);
    reveal(Outcome::proxy_password_protected);
    reveal(Outcome::finish_proxy_restore);
    reveal(Outcome::restore_spotify_grants);
    reveal(Outcome::release_waiting);
    let after = Outcome::start(state).restored_proxy_built(config, password, protected, Ok(url));
    let told = seq![
        Effect::UseProxy(config),
        Effect::Emit(Notice::Event(Event::ProxyRestored { config, password })),
    ] + (if protected {
        seq![Effect::Emit(Notice::Event(Event::ProxyPasswordStored))]
    } else {
        Seq::<Effect>::empty()
    });
    let read = seq![
        Effect::LoadCredential {
            lease: Lease { slot: Slot::Shared, epoch: state.credentials.shared },
        },
        Effect::LoadCredential {
            lease: Lease { slot: Slot::Personal, epoch: state.credentials.personal },
        },
        Effect::LoadCredential {
            lease: Lease { slot: Slot::Playback, epoch: state.credentials.playback },
        },
    ];
    let released = Seq::new(state.waiting.len(), |i: int| Effect::Requeue(state.waiting[i]));
    assert(after.effects =~= told + read + released);
}

/// Stored settings that make no proxy block the network, and that is told.
pub proof fn stored_settings_may_block_the_network(
    state: WorkerModel,
    config: ProxyConfig,
    password: Option<ProxyPassword>,
    protected: bool,
    error: String,
)
    ensures
        ({
            let after = Outcome::start(state).restored_proxy_built(
                config,
                password,
                protected,
                Err(error),
            );
            &&& after.effects.len() >= 3
            &&& after.effects[0] == Effect::BlockNetwork(error)
            &&& after.effects[1] == Effect::Emit(Notice::Error(Message::Network(error)))
            &&& after.effects[2] == Effect::Emit(
                Notice::Event(
                    Event::ProxyRestored { config: ProxyConfig::Invalid(error), password },
                ),
            )
            &&& after.state.network.network_error == Some(error)
        }),
{
    reveal(Outcome::restored_proxy_built);
    reveal(Outcome::proxy_password_protected);
    reveal(Outcome::finish_proxy_restore);
    reveal(Outcome::restore_spotify_grants);
    reveal(Outcome::release_waiting);
}

// ---- answers ------------------------------------------------------------------------

/// An answer to a request of the session that is signed in is told as it is. One
/// that says that a grant has expired ends that grant first.
pub proof fn an_answer_is_told(
    state: WorkerModel,
    response: Box<ApiResponse>,
    shared_lease: Lease,
    personal_lease: Lease,
    live: Live,
)
    requires
        !state.network.restoring_proxy,
        !(*response is Me),
        state.credentials.shared < u64::MAX,
        state.credentials.personal < u64::MAX,
    ensures
        ({
            let o = Outcome::start(state);
            let told = Effect::Emit(Notice::Event(Event::Api(response)));
            let generation = state.sign_in.session;
            let plain = o.step(
                Command::ApiFinished {
                    generation,
                    response,
                    expired: None,
                    shared_lease,
                    personal_lease,
                },
                live,
            );
            let shared = o.step(
                Command::ApiFinished {
                    generation,
                    response,
                    expired: Some(ApiSource::Shared),
                    shared_lease: Lease { slot: Slot::Shared, epoch: state.credentials.shared },
                    personal_lease,
                },
                live,
            );
            let personal = o.step(
                Command::ApiFinished {
                    generation,
                    response,
                    expired: Some(ApiSource::Personal),
                    shared_lease,
                    personal_lease: Lease {
                        slot: Slot::Personal,
                        epoch: state.credentials.personal,
                    },
                },
                live,
            );
            &&& plain == (Outcome { state, effects: seq![told] })
            &&& shared.effects == seq![
                Effect::Revoke { slot: Slot::Shared },
                Effect::DeleteStored {
                    lease: Lease {
                        slot: Slot::Shared,
                        epoch: (state.credentials.shared + 1) as u64,
                    },
                },
                Effect::DropTokens { source: ApiSource::Shared },
                Effect::Emit(Notice::AuthFailed(Message::SignInExpired)),
                told,
            ]
            &&& !shared.state.sign_in.signed_in && !shared.state.sign_in.shared_tokens
                && shared.state.shared is Unavailable
            &&& personal.effects == seq![
                Effect::Revoke { slot: Slot::Personal },
                Effect::DeleteStored {
                    lease: Lease {
                        slot: Slot::Personal,
                        epoch: (state.credentials.personal + 1) as u64,
                    },
                },
                Effect::DropTokens { source: ApiSource::Personal },
                Effect::Emit(Notice::Event(Event::WebApp { client_id: None })),
                told,
            ]
            &&& personal.state.sign_in.signed_in == state.sign_in.signed_in
                && !personal.state.sign_in.personal_tokens && personal.state.personal is Unavailable
                && personal.state.shared == state.shared
        }),
{
    reveal(Outcome::obey);
    reveal(Outcome::api_finished);
    reveal(Outcome::forget_web_grant);
    let o = Outcome::start(state);
    let generation = state.sign_in.session;
    assert(o.step(
        Command::ApiFinished { generation, response, expired: None, shared_lease, personal_lease },
        live,
    ).effects =~= seq![Effect::Emit(Notice::Event(Event::Api(response)))]);
    assert(o.step(
        Command::ApiFinished {
            generation,
            response,
            expired: Some(ApiSource::Shared),
            shared_lease: Lease { slot: Slot::Shared, epoch: state.credentials.shared },
            personal_lease,
        },
        live,
    ).effects.len() == 5);
    assert(o.step(
        Command::ApiFinished {
            generation,
            response,
            expired: Some(ApiSource::Personal),
            shared_lease,
            personal_lease: Lease { slot: Slot::Personal, epoch: state.credentials.personal },
        },
        live,
    ).effects.len() == 5);
}

/// An answer about the account that is signed in says whether it has Premium, and
/// is told like any other. Without Premium the engine is shut down.
pub proof fn an_answer_tells_the_plan(
    state: WorkerModel,
    account: AccountId,
    user: User,
    shared_lease: Lease,
    personal_lease: Lease,
    live: Live,
)
    requires
        !state.network.restoring_proxy,
        state.sign_in.signed_in,
        verified(state, account),
        user.id@ == account.id@,
    ensures
        ({
            let response = Box::new(ApiResponse::Me(Ok(user)));
            let after = Outcome::start(state).step(
                Command::ApiFinished {
                    generation: state.sign_in.session,
                    response,
                    expired: None,
                    shared_lease,
                    personal_lease,
                },
                live,
            );
            &&& after.effects.len() > 0
            &&& after.effects.last() == Effect::Emit(Notice::Event(Event::Api(response)))
            &&& after.state.playback.premium == (match user.product {
                Some(product) => Some(product@ == "premium"@),
                None => None,
            })
            &&& (user.product matches Some(product) && product@ != "premium"@) ==> (
            state.playback.engine matches Some(engine) ==> after.state.playback.engine is None
                && after.effects[0] == Effect::ShutdownEngine(engine))
        }),
{
    reveal(Outcome::obey);
    reveal(Outcome::api_finished);
    reveal(Outcome::on_account_checked);
    reveal(Outcome::drop_engine);
    reveal(Outcome::resume_engine);
    reveal(Outcome::connect_engine);
}

// ---- errands ------------------------------------------------------------------------

/// What is cached for an account is read and written for the verified one, and for
/// nobody when there is none.
pub proof fn caches_belong_to_the_verified_account(
    state: WorkerModel,
    account: AccountId,
    id: String,
    generation: u64,
    snapshot: String,
    items: Vec<PlaylistItem>,
    total: u32,
    next_offset: Option<u32>,
    cache: Ticket,
    account_id: String,
    live: Live,
)
    requires
        !state.network.restoring_proxy,
    ensures
        verified(state, account) ==> ({
            let o = Outcome::start(state);
            &&& o.step(Command::LoadPlaylistCache { id, generation }, live).effects == seq![
                Effect::ReadPlaylistCache { account, id, generation },
            ]
            &&& o.step(
                Command::StorePlaylistCache { id, snapshot, items, total, next_offset },
                live,
            ).effects == seq![
                Effect::WritePlaylistCache { account, id, snapshot, items, total, next_offset },
            ]
            &&& o.step(Command::LoadLikedSongsCache { generation }, live).effects == seq![
                Effect::ReadLikedSongsCache { account, generation },
            ]
            &&& o.step(Command::StoreLikedSongsCache { account_id, cache }, live).effects
                == if account_id@ == account.id@ {
                seq![Effect::WriteLikedSongsCache { account_id, cache }]
            } else {
                Seq::<Effect>::empty()
            }
        }),
        !(state.shared is Ready) && !(state.personal is Ready) ==> ({
            let o = Outcome::start(state);
            &&& o.step(Command::LoadPlaylistCache { id, generation }, live) == o
            &&& o.step(
                Command::StorePlaylistCache { id, snapshot, items, total, next_offset },
                live,
            ) == o
            &&& o.step(Command::LoadLikedSongsCache { generation }, live) == o
            &&& o.step(Command::StoreLikedSongsCache { account_id, cache }, live) == o
        }),
{
    reveal(Outcome::obey);
    let o = Outcome::start(state);
    assert(o.step(Command::LoadPlaylistCache { id, generation }, live).effects.len() <= 1);
    assert(o.step(
        Command::StorePlaylistCache { id, snapshot, items, total, next_offset },
        live,
    ).effects.len() <= 1);
    assert(o.step(Command::LoadLikedSongsCache { generation }, live).effects.len() <= 1);
    let stored = o.step(Command::StoreLikedSongsCache { account_id, cache }, live).effects;
    if verified(state, account) {
        assert(stored =~= if account_id@ == account.id@ {
            seq![Effect::WriteLikedSongsCache { account_id, cache }]
        } else {
            Seq::<Effect>::empty()
        });
    }
}

/// A receiver gets the credentials that are kept when they are the verified
/// account's, and none when they are another's. Names of users are read by the
/// engine.
pub proof fn a_receiver_gets_the_accounts_credentials(
    state: WorkerModel,
    account: AccountId,
    receiver: Receiver,
    ids: Vec<String>,
    live: Live,
)
    requires
        !state.network.restoring_proxy,
        verified(state, account),
    ensures
        ({
            let after = Outcome::start(state).step(Command::ActivateReceiver(receiver), live);
            let lease = Lease { slot: Slot::Playback, epoch: state.credentials.playback };
            &&& state.playback.playback_grant matches Some(grant) ==> (grant.username matches Some(
                name,
            ) ==> after.effects == seq![
                Effect::ActivateReceiver {
                    receiver,
                    credentials: if name@ == account.id@ {
                        Some(grant)
                    } else {
                        None
                    },
                    lease,
                },
            ])
            &&& state.playback.playback_grant is None ==> after.effects == seq![
                Effect::ActivateReceiver { receiver, credentials: None, lease },
            ]
        }),
        state.playback.engine matches Some(engine) ==> Outcome::start(state).step(
            Command::UserNames(ids),
            live,
        ).effects == seq![Effect::ReadUserNames { engine, ids }],
{
    reveal(Outcome::obey);
    reveal(Outcome::activate_receiver);
    assert(Outcome::start(state).step(Command::ActivateReceiver(receiver), live).effects.len()
        == 1);
    if state.playback.engine is Some {
        assert(Outcome::start(state).step(Command::UserNames(ids), live).effects =~= seq![
            Effect::ReadUserNames { engine: state.playback.engine->0, ids },
        ]);
    }
}

/// The type of an album that nobody asked for yet is looked up by the engine, and
/// the answer to the lookup under way is told, for the album that was asked.
pub proof fn an_album_type_is_looked_up(
    state: WorkerModel,
    uri: String,
    uris: Vec<String>,
    engine: Ticket,
    result: Result<bool, String>,
    live: Live,
)
    requires
        !state.network.restoring_proxy,
        state.sign_in.signed_in,
    ensures
        state.playback.engine == Some(engine) && state.playback.premium != Some(false)
            && state.lookup.active is None && state.lookup.pending.len() == 0
            && !state.lookup.seen.contains(uri@) && uris@ == seq![uri] ==> Outcome::start(
            state,
        ).step(Command::AlbumTypes(uris), live).effects == seq![
            Effect::LookUpAlbumType {
                engine,
                request: AlbumTypeRequest {
                    uri,
                    session_generation: state.lookup.session_generation,
                    engine_generation: state.lookup.engine_generation,
                },
            },
        ],
        state.lookup.active matches Some(request) ==> ({
            let after = Outcome::start(state).step(
                Command::AlbumTypeResolved { request, result },
                live,
            );
            &&& after.effects.len() > 0
            &&& after.effects[0] == Effect::Emit(
                Notice::Event(Event::AlbumType { uri: request.uri, result }),
            )
        }),
{
    reveal(Outcome::obey);
    reveal(Outcome::fetch_album_types);
    reveal(Outcome::start_album_type_lookup);
    reveal(Outcome::on_album_type_resolved);
    if uris@ == seq![uri] {
        assert(uris@.len() == 1 && uris@.last() == uri);
        assert(uris@.drop_last() =~= Seq::<String>::empty());
        reveal_with_fuel(crate::album_types::LookupModel::ask_all, 2);
        let o = Outcome::start(state);
        if state.playback.engine == Some(engine) && state.playback.premium != Some(false)
            && state.lookup.active is None && state.lookup.pending.len() == 0
            && !state.lookup.seen.contains(uri@) {
            assert(state.lookup.ask_all(uris@) == state.lookup.ask(uri));
            assert(o.step(Command::AlbumTypes(uris), live).effects =~= seq![
                Effect::LookUpAlbumType {
                    engine,
                    request: AlbumTypeRequest {
                        uri,
                        session_generation: state.lookup.session_generation,
                        engine_generation: state.lookup.engine_generation,
                    },
                },
            ]);
        }
    }
}

/// What needs no state is done as it was asked for.
pub proof fn errands_are_run(state: WorkerModel, command: Command, live: Live)
    requires
        !state.network.restoring_proxy,
        command is OpenThemesFolder || command is CheckPlaylistCover || command
            is ChoosePlaylistCover || command is Accent || command is DiscoverReceivers || command
            is CheckForUpdates || command is InspectUpdate || command is DownloadUpdate || command
            is InstallUpdate || command is Lyrics,
    ensures
        Outcome::start(state).step(command, live) == (Outcome {
            state,
            effects: seq![Effect::Perform(command)],
        }),
{
    reveal(Outcome::obey);
    assert(Outcome::start(state).step(command, live).effects =~= seq![Effect::Perform(command)]);
}

/// An album that was not asked for yet waits behind the others, while fewer than fifty do;
/// the first of them is looked up next, and its answer makes room for the next.
pub proof fn album_types_are_looked_up_in_turn(lookup: LookupModel, uri: String)
    ensures
        lookup.pending.len() + (if lookup.active is Some {
            1int
        } else {
            0
        }) < 50 && !lookup.seen.contains(uri@) ==> lookup.ask(uri).pending == lookup.pending.push(
            uri,
        ) && lookup.ask(uri).seen.contains(uri@) && lookup.ask(uri).active == lookup.active,
        lookup.pending.len() >= 50 ==> lookup.ask(uri) == lookup,
        lookup.active is None && lookup.pending.len() > 0 ==> (lookup.next().active matches Some(
            request,
        ) && request.uri == lookup.pending[0] && request.session_generation
            == lookup.session_generation && request.engine_generation == lookup.engine_generation
            && lookup.next().pending == lookup.pending.drop_first()),
        lookup.active is Some ==> lookup.next() == lookup,
        lookup.active matches Some(request) ==> lookup.accepts(request) && lookup.finish(
            request,
        ).active is None && lookup.finish(request).pending == lookup.pending,
{
    let asked = lookup.ask(uri);
    if asked.seen.len() > lookup.seen.len() {
        assert(asked.seen[lookup.seen.len() as int] == uri@);
    }
}

/// What asks nothing of Spotify goes through while Spotify cannot be asked; all else does
/// not.
pub proof fn some_commands_work_offline(command: Command, online: bool, offline: bool)
    requires
        call_ensures(Command::passes, (&command, false), online),
        call_ensures(Command::passes, (&command, true), offline),
    ensures
        online,
        offline == (command is Accent || command is Shutdown || command is CheckForUpdates
            || command is InspectUpdate || command is DownloadUpdate || command is InstallUpdate),
{
}

/// Settings that lead to another proxy than the engine's replace the engine of the listener
/// who is signed in, with the new settings.
pub proof fn another_proxy_replaces_the_engine(
    state: WorkerModel,
    account: AccountId,
    grant: Arc<PlaybackCredentials>,
    engine: Ticket,
    request: u64,
    config: ProxyConfig,
    url: Option<String>,
    live: Live,
)
    requires
        !state.network.restoring_proxy,
        state.sign_in.signed_in,
        !state.playback.engine_busy,
        state.playback.engine == Some(engine),
        state.playback.premium != Some(false),
        state.playback.playback_grant == Some(grant),
        verified(state, account),
        grant.username matches Some(name) && name@ == account.id@,
    ensures
        ({
            let after = Outcome::start(state).step(
                Command::ApplyProxy { request, config, built: Ok(url) },
                live,
            );
            let same = match (state.playback.engine_proxy, url) {
                (Some(a), Some(b)) => a@ == b@,
                (None, None) => true,
                _ => false,
            };
            &&& !same ==> after.effects.len() >= 5 && after.effects[0] == Effect::UseProxy(config)
                && after.effects[1] == Effect::ShutdownEngine(engine) && (after.effects[3]
                matches Effect::ConnectEngine {
                credentials,
                config: used,
                lease: _,
                session_generation: _,
            } && credentials == grant && used.proxy == config && used.audio
                == state.playback.engine_config.audio) && after.effects[4] == Effect::Emit(
                Notice::Event(Event::ProxyApplied { request, config, result: Ok(true) }),
            )
            &&& same ==> after.effects.len() >= 2 && after.effects[1] == Effect::Emit(
                Notice::Event(Event::ProxyApplied { request, config, result: Ok(false) }),
            ) && after.state.playback.engine == Some(engine)
        }),
{
    reveal(Outcome::obey);
    reveal(Outcome::change_proxy);
    reveal(Outcome::use_proxy);
    reveal(Outcome::replace_if);
    reveal(Outcome::replace_engine);
    reveal(Outcome::take_engine_for_resume);
    reveal(Outcome::resume_engine);
    reveal(Outcome::connect_engine);
    reveal(Outcome::proxy_changed);
    reveal(Outcome::persist_proxy_password);
    reveal(Outcome::finish_proxy_restore);
    reveal(Outcome::sign_in_if);
}

/// A password that is read after settings were applied is not put to use: it is told to be
/// stored, and what waited for the network goes on.
pub proof fn a_late_password_changes_nothing(
    state: WorkerModel,
    password: ProxyPassword,
    live: Live,
)
    requires
        state.network.proxy_revision != 0,
        !state.network.restoring_proxy,
    ensures
        Outcome::start(state).step(
            Command::ProxyRestored {
                lease: Lease { slot: Slot::Proxy, epoch: state.credentials.proxy },
                result: Ok(Loaded { grant: Some(Grant::Proxy(password)), warning: None }),
            },
            live,
        ) == (Outcome {
            state,
            effects: seq![Effect::Emit(Notice::Event(Event::ProxyPasswordStored))],
        }),
{
    reveal(Outcome::obey);
    reveal(Outcome::on_proxy_restored);
    reveal(Outcome::proxy_password_protected);
    reveal(Outcome::finish_proxy_restore);
    assert(Outcome::start(state).step(
        Command::ProxyRestored {
            lease: Lease { slot: Slot::Proxy, epoch: state.credentials.proxy },
            result: Ok(Loaded { grant: Some(Grant::Proxy(password)), warning: None }),
        },
        live,
    ).effects =~= seq![Effect::Emit(Notice::Event(Event::ProxyPasswordStored))]);
}

} // verus!
