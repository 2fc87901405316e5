//! What the worker does, command by command, as functions on plain values.

use std::sync::Arc;

use vstd::prelude::*;

use crate::album_types::{AlbumTypeRequest, LookupModel};
use crate::api::{ApiRequest, ApiResponse};
use crate::credentials::{covers, slot_of, Ledger, Lease, Slot, StoredToken};
use crate::error::{ApiError, ApiSource};
use crate::events::{
    bound_credentials, AuthStatus, Command, Effect, EngineConfig, Event, Grant, Loaded,
    LocalPlayback, Message, Notice, PlaybackCredentials, ProxyBuild, ProxyConfig, ProxyPassword,
    ReadyEngine, Receiver, Rootlist, StorageError, Ticket,
};
use crate::gateway::{account_of, may_install, AccountId, SessionState};
use crate::models::{text_of, User};

verus! {

/// For how long, in milliseconds, a dropped session counts.
pub const RECONNECT_WINDOW_MS: u64 = 600_000;

/// How many dropped sessions in that time end the reconnecting.
pub const RECONNECT_LIMIT: usize = 6;

/// How often a pickup is tried.
pub const RESUME_TRIES: u8 = 3;

/// How long the engine gets before a pickup is tried, in milliseconds.
pub const FIRST_RESUME_CHECK_MS: u64 = 1_500;

/// How long a pickup gets before it is looked at, in milliseconds.
pub const NEXT_RESUME_CHECK_MS: u64 = 4_000;

/// What the worker has to know of the world when it takes a command.
#[derive(Clone, Copy, Debug, PartialEq, Eq, Structural)]
pub struct Live {
    pub now_ms: u64,
    /// Where the engine is playing, to go on from there with another.
    pub resume_point: Option<Ticket>,
    /// Whether the engine is playing something again.
    pub playing: bool,
}

/// Which stored credentials are still being read.
#[derive(Clone, Copy, Debug, PartialEq, Eq, Structural)]
pub struct Restoring {
    pub shared: bool,
    pub personal: bool,
    pub playback: bool,
}

impl Restoring {
    pub open spec fn any(self) -> bool {
        self.shared || self.personal || self.playback
    }

    pub open spec fn without(self, slot: Slot) -> Restoring {
        match slot {
            Slot::Shared => Restoring { shared: false, ..self },
            Slot::Personal => Restoring { personal: false, ..self },
            Slot::Playback => Restoring { playback: false, ..self },
            Slot::Proxy => self,
        }
    }
}

/// How the sign-in stands.
pub struct SignInState {
    /// Whether a grant of the shared application is in use.
    pub shared_tokens: bool,
    /// Whether a grant of the personal application is in use.
    pub personal_tokens: bool,
    pub restoring: Restoring,
    pub spotify_restore_started: bool,
    /// Counts the attempts to sign in.
    pub attempt: u64,
    /// Counts the sign-outs.
    pub session: u64,
    pub web_client_id: Option<String>,
    /// Why no grant can be asked for the personal application.
    pub client_problem: Option<String>,
    pub signed_in: bool,
    /// Whether a browser flow is under way.
    pub flow_open: bool,
    /// The application whose sign-in is under way.
    pub authorizing: Option<ApiSource>,
    /// The application whose sign-in starts after it.
    pub pending: Option<ApiSource>,
}

/// How local playback stands.
pub struct EngineState {
    pub playback_grant: Option<Arc<PlaybackCredentials>>,
    pub engine_config: EngineConfig,
    /// The proxy that the current or coming engine was given.
    pub engine_proxy: Option<String>,
    pub engine: Option<Ticket>,
    /// A playlist tree asked for before there was an engine to ask.
    pub rootlist_pending: bool,
    /// Whether an engine is being connected.
    pub engine_busy: bool,
    /// Whether settings changed while an engine was being connected: it is out
    /// of date and is not installed.
    pub restart_pending: bool,
    /// The plan, once the Web API has answered.
    pub premium: Option<bool>,
    /// Where the engine was playing when it went down.
    pub resume: Option<Ticket>,
    /// A pickup under way, and how often it was tried.
    pub resume_verify: Option<(Ticket, u8)>,
}

/// How the network is used.
pub struct NetworkState {
    /// Whether the proxy's password is still being read.
    pub restoring_proxy: bool,
    pub proxy_revision: u64,
    /// Why the network may not be used.
    pub network_error: Option<String>,
}

/// Which requests are under way.
pub struct TaskState {
    pub next_task: u64,
    /// Only the newest release scan matters: a new one cancels it.
    pub release_task: Option<u64>,
}

/// The worker's state.
pub ghost struct WorkerModel {
    pub credentials: Ledger,
    pub sign_in: SignInState,
    pub playback: EngineState,
    pub network: NetworkState,
    pub tasks: TaskState,
    pub shared: SessionState,
    pub personal: SessionState,
    pub waiting: Seq<Command>,
    pub searches: Seq<u64>,
    pub lookup: LookupModel,
    pub drops: Seq<u64>,
    pub scopes: Seq<String>,
}

impl WorkerModel {
    /// The state before anything was restored or signed in.
    pub open spec fn initial(
        engine_config: EngineConfig,
        web_client_id: Option<String>,
        client_problem: Option<String>,
        network_error: Option<String>,
        scopes: Seq<String>,
    ) -> WorkerModel {
        WorkerModel {
            credentials: Ledger::initial(),
            sign_in: SignInState {
                shared_tokens: false,
                personal_tokens: false,
                restoring: Restoring { shared: false, personal: false, playback: false },
                spotify_restore_started: false,
                attempt: 0,
                session: 0,
                web_client_id,
                client_problem,
                signed_in: false,
                flow_open: false,
                authorizing: None,
                pending: None,
            },
            playback: EngineState {
                playback_grant: None,
                engine_config,
                engine_proxy: None,
                engine: None,
                rootlist_pending: false,
                engine_busy: false,
                restart_pending: false,
                premium: None,
                resume: None,
                resume_verify: None,
            },
            network: NetworkState { restoring_proxy: false, proxy_revision: 0, network_error },
            tasks: TaskState { next_task: 0, release_task: None },
            shared: SessionState::Unavailable,
            personal: SessionState::Unavailable,
            waiting: Seq::empty(),
            searches: Seq::empty(),
            lookup: LookupModel::initial(),
            drops: Seq::empty(),
            scopes,
        }
    }

    pub open spec fn state(self, source: ApiSource) -> SessionState {
        match source {
            ApiSource::Shared => self.shared,
            ApiSource::Personal => self.personal,
        }
    }

    pub open spec fn with_state(self, source: ApiSource, state: SessionState) -> WorkerModel {
        match source {
            ApiSource::Shared => WorkerModel { shared: state, ..self },
            ApiSource::Personal => WorkerModel { personal: state, ..self },
        }
    }

    pub open spec fn cleared(self, source: ApiSource) -> WorkerModel {
        self.with_state(source, SessionState::Unavailable)
    }

    pub open spec fn tokens(self, source: ApiSource) -> bool {
        match source {
            ApiSource::Shared => self.sign_in.shared_tokens,
            ApiSource::Personal => self.sign_in.personal_tokens,
        }
    }

    pub open spec fn with_tokens(self, source: ApiSource, held: bool) -> WorkerModel {
        match source {
            ApiSource::Shared => WorkerModel {
                sign_in: SignInState { shared_tokens: held, ..self.sign_in },
                ..self
            },
            ApiSource::Personal => WorkerModel {
                sign_in: SignInState { personal_tokens: held, ..self.sign_in },
                ..self
            },
        }
    }

    /// The verified account.
    pub open spec fn account(self) -> Option<AccountId> {
        account_of(self.shared, self.personal)
    }

    pub open spec fn account_name(self) -> Option<Seq<char>> {
        match self.account() {
            Some(account) => Some(account.id@),
            None => None,
        }
    }

    pub open spec fn invalidated(self, slot: Slot) -> WorkerModel {
        WorkerModel { credentials: self.credentials.invalidated(slot), ..self }
    }

    pub open spec fn lease(self, slot: Slot) -> Lease {
        self.credentials.lease_of(slot)
    }

    /// The slot of the sign-in that is under way.
    pub open spec fn flow_slot(self) -> Slot {
        match self.sign_in.authorizing {
            Some(source) => slot_of(source),
            None => Slot::Playback,
        }
    }

    /// The state once the engine that is being connected was given a proxy.
    pub open spec fn engine_started(self, proxy: Option<String>) -> WorkerModel {
        WorkerModel {
            playback: EngineState { engine_proxy: proxy, ..self.playback },
            ..self
        }
    }

    /// Every counter can still be counted up this often.
    pub open spec fn roomy(self, times: nat) -> bool {
        &&& self.credentials.spare(times)
        &&& self.sign_in.attempt + times <= u64::MAX
        &&& self.sign_in.session + times <= u64::MAX
        &&& self.tasks.next_task + times <= u64::MAX
    }

    /// No counter was counted up more often than this since an earlier state.
    pub open spec fn counted(self, before: WorkerModel, times: nat) -> bool {
        &&& self.credentials.shared <= before.credentials.shared + times
        &&& self.credentials.personal <= before.credentials.personal + times
        &&& self.credentials.playback <= before.credentials.playback + times
        &&& self.credentials.proxy <= before.credentials.proxy + times
        &&& self.sign_in.attempt <= before.sign_in.attempt + times
        &&& self.sign_in.session <= before.sign_in.session + times
        &&& self.tasks.next_task <= before.tasks.next_task + times
    }

    pub open spec fn wf(self) -> bool {
        self.lookup.wf()
    }
}

/// Whether credentials are those of an account: they name a user, and it is
/// the account's.
pub open spec fn grant_matches(
    credentials: PlaybackCredentials,
    account: Option<AccountId>,
) -> bool {
    match credentials.username {
        Some(name) => name@.len() > 0 && crate::exchange::is_account(name@, account),
        None => false,
    }
}

/// The dropped sessions that still count.
#[verifier::opaque]
pub open spec fn recent_drops(drops: Seq<u64>, now_ms: u64) -> Seq<u64> {
    drops.filter(|at: u64| still_counts(at, now_ms))
}

/// Whether a dropped session still counts.
pub open spec fn still_counts(at: u64, now_ms: u64) -> bool {
    (if now_ms >= at {
        now_ms - at
    } else {
        0
    }) < RECONNECT_WINDOW_MS
}

/// The source whose grant a slot holds.
pub open spec fn source_of(slot: Slot) -> ApiSource {
    if slot == Slot::Shared {
        ApiSource::Shared
    } else {
        ApiSource::Personal
    }
}

/// A state, and what was to be done outside on the way to it.
pub ghost struct Outcome {
    pub state: WorkerModel,
    pub effects: Seq<Effect>,
}

impl Outcome {
    pub open spec fn start(state: WorkerModel) -> Outcome {
        Outcome { state, effects: Seq::empty() }
    }

    pub open spec fn at(self, state: WorkerModel) -> Outcome {
        Outcome { state, ..self }
    }

    pub open spec fn act(self, effect: Effect) -> Outcome {
        Outcome { effects: self.effects.push(effect), ..self }
    }

    pub open spec fn emit(self, notice: Notice) -> Outcome {
        self.act(Effect::Emit(notice))
    }

    pub open spec fn tell(self, event: Event) -> Outcome {
        self.emit(Notice::Event(event))
    }

    pub open spec fn error(self, message: Message) -> Outcome {
        self.emit(Notice::Error(message))
    }

    pub open spec fn playback_failed(self, message: Message) -> Outcome {
        self.emit(Notice::PlaybackFailed(message))
    }

    // ---- searches and requests ---------------------------------------------------

    #[verifier::opaque]
    pub open spec fn dispatch(self, request: ApiRequest) -> Outcome {
        let m = self.state;
        let sent = self.act(
            Effect::Dispatch {
                task: m.tasks.next_task,
                request,
                generation: m.sign_in.session,
                background: request.background_spec(),
                engine: m.playback.engine,
                shared_lease: m.lease(Slot::Shared),
                personal_lease: m.lease(Slot::Personal),
            },
        ).at(WorkerModel {
            tasks: TaskState { next_task: (m.tasks.next_task + 1) as u64, ..m.tasks },
            ..m
        });
        if request is NewReleases {
            let replaced = match m.tasks.release_task {
                Some(task) => sent.act(Effect::CancelTask { task }),
                None => sent,
            };
            replaced.at(WorkerModel {
                tasks: TaskState { release_task: Some(m.tasks.next_task), ..sent.state.tasks },
                ..sent.state
            })
        } else {
            sent
        }
    }

    /// Every search that is under way is cancelled.
    #[verifier::opaque]
    pub open spec fn cancel_search(self) -> Outcome {
        Outcome {
            state: WorkerModel { searches: Seq::empty(), ..self.state },
            effects: self.effects + self.state.searches.map_values(
                |task: u64| Effect::CancelTask { task },
            ),
        }
    }

    #[verifier::opaque]
    pub open spec fn search_dispatch(self, request: ApiRequest) -> Outcome {
        let sent = self.dispatch(request);
        sent.at(
            WorkerModel {
                searches: sent.state.searches.push(self.state.tasks.next_task),
                ..sent.state
            },
        )
    }

    #[verifier::opaque]
    pub open spec fn search(self, query: String, serial: u64) -> Outcome {
        let free = self.cancel_search();
        if query@.len() == 0 {
            free
        } else {
            let split = self.state.personal is Ready;
            let told = free.tell(
                Event::Api(Box::new(ApiResponse::SearchStarted { query, serial, split })),
            );
            if split {
                told.search_dispatch(
                    ApiRequest::SearchPlaylists { query, serial },
                ).search_dispatch(ApiRequest::SearchCatalogue { query, serial })
            } else {
                told.search_dispatch(ApiRequest::Search { query, serial })
            }
        }
    }

    // ---- signing in ----------------------------------------------------------------

    #[verifier::opaque]
    pub open spec fn sign_in_source(self, source: ApiSource) -> Outcome {
        let m = self.state;
        match m.network.network_error {
            Some(error) => self.error(Message::Plain(error)),
            None => if m.sign_in.flow_open {
                self
            } else if source == ApiSource::Personal && m.sign_in.web_client_id is None {
                self
            } else if source == ApiSource::Personal && m.sign_in.client_problem is Some {
                self.error(Message::Plain(m.sign_in.client_problem->0))
            } else {
                let slot = slot_of(source);
                let next = WorkerModel {
                    sign_in: SignInState {
                        restoring: m.sign_in.restoring.without(slot),
                        attempt: (m.sign_in.attempt + 1) as u64,
                        flow_open: true,
                        authorizing: Some(source),
                        ..m.invalidated(slot).sign_in
                    },
                    ..m.invalidated(slot)
                }.with_state(source, SessionState::Authorizing);
                self.at(next).act(
                    Effect::BeginSignIn {
                        source,
                        client_id: if source == ApiSource::Personal {
                            m.sign_in.web_client_id
                        } else {
                            None
                        },
                        lease: next.lease(slot),
                        attempt: next.sign_in.attempt,
                        announce: source == ApiSource::Shared,
                    },
                )
            },
        }
    }

    /// The sign-in that waits, if any, starts.
    #[verifier::opaque]
    pub open spec fn start_pending(self) -> Outcome {
        match self.state.sign_in.pending {
            Some(source) => self.at(WorkerModel {
                sign_in: SignInState { pending: None, ..self.state.sign_in },
                ..self.state
            }).sign_in_source(
                source,
            ),
            None => self,
        }
    }

    #[verifier::opaque]
    pub open spec fn finish_authorization(self, source: ApiSource) -> Outcome {
        if self.state.sign_in.authorizing != Some(source) {
            self
        } else {
            self.at(
                WorkerModel {
                    sign_in: SignInState {
                        flow_open: false,
                        authorizing: None,
                        ..self.state.sign_in
                    },
                    ..self.state
                },
            ).start_pending()
        }
    }

    #[verifier::opaque]
    pub open spec fn finish_playback_authorization(self, attempt: u64) -> Outcome {
        if self.state.sign_in.attempt == attempt {
            self.at(WorkerModel {
                sign_in: SignInState { flow_open: false, ..self.state.sign_in },
                ..self.state
            }).start_pending()
        } else {
            self
        }
    }

    #[verifier::opaque]
    pub open spec fn sign_in_ended(self, source: ApiSource, attempt: u64) -> Outcome {
        if self.state.sign_in.authorizing == Some(source) && self.state.sign_in.attempt == attempt {
            let ended = WorkerModel {
                sign_in: SignInState {
                    flow_open: false,
                    authorizing: None,
                    ..self.state.sign_in
                },
                ..self.state
            };
            let cleared = if ended.state(source) is Authorizing {
                ended.cleared(source)
            } else {
                ended
            };
            self.at(cleared).start_pending()
        } else {
            self
        }
    }

    #[verifier::opaque]
    pub open spec fn cancel_sign_in(self) -> Outcome {
        self.at(
            WorkerModel {
                sign_in: SignInState {
                    attempt: (self.state.sign_in.attempt + 1) as u64,
                    ..self.state.sign_in
                },
                ..self.state
            },
        ).stop_flow().abandon_authorization()
    }

    /// The browser flow, if any, ends, and what it would bring is stale.
    #[verifier::opaque]
    pub open spec fn stop_flow(self) -> Outcome {
        let m = self.state;
        if m.sign_in.flow_open {
            self.at(WorkerModel {
                sign_in: SignInState { flow_open: false, ..m.invalidated(m.flow_slot()).sign_in },
                ..m.invalidated(m.flow_slot())
            }).act(
                Effect::CancelFlow,
            )
        } else {
            self
        }
    }

    /// Nothing is being signed in, and nothing waits to be.
    #[verifier::opaque]
    pub open spec fn abandon_authorization(self) -> Outcome {
        let m = WorkerModel {
            sign_in: SignInState { authorizing: None, pending: None, ..self.state.sign_in },
            ..self.state
        };
        match self.state.sign_in.authorizing {
            Some(source) => if m.state(source) is Authorizing {
                self.at(m.cleared(source))
            } else {
                self.at(m)
            },
            None => self.at(m),
        }
    }

    /// A grant is there; whose account it is has to be found out.
    #[verifier::opaque]
    pub open spec fn on_web_signed_in(self, source: ApiSource, token: StoredToken) -> Outcome {
        let m = self.state;
        self.at(m.with_tokens(source, true).with_state(source, SessionState::Authorizing)).act(
            Effect::Verify { source, token, lease: m.lease(slot_of(source)), attempt: m.sign_in.attempt },
        )
    }

    /// Withdraws and deletes the grant of an application.
    #[verifier::opaque]
    pub open spec fn forget_web_grant(self, source: ApiSource) -> Outcome {
        let slot = slot_of(source);
        let m = self.state.invalidated(slot);
        self.act(Effect::Revoke { slot }).act(Effect::DeleteStored { lease: m.lease(slot) }).act(
            Effect::DropTokens { source },
        ).at(m.with_tokens(source, false).cleared(source))
    }

    #[verifier::opaque]
    pub open spec fn on_web_verification_failed(
        self,
        source: ApiSource,
        error: ApiError,
    ) -> Outcome {
        let message = match source {
            ApiSource::Shared => Message::SharedSignIn(error),
            ApiSource::Personal => Message::PersonalSignIn(error),
        };
        self.without_grant(source, error is SignInExpired).sign_in_lost(source, message).error(
            message,
        )
    }

    /// A session is not to be had: its grant is forgotten, when it is to
    /// blame.
    #[verifier::opaque]
    pub open spec fn without_grant(self, source: ApiSource, forget: bool) -> Outcome {
        if forget {
            self.forget_web_grant(source)
        } else {
            self.at(self.state.cleared(source))
        }
    }

    /// Without the shared session, or without any, nobody is signed in.
    #[verifier::opaque]
    pub open spec fn sign_in_lost(self, source: ApiSource, message: Message) -> Outcome {
        if source == ApiSource::Shared || !(self.state.state(crate::gateway::other_source(source))
            is Ready) {
            self.at(WorkerModel {
                sign_in: SignInState { signed_in: false, ..self.state.sign_in },
                ..self.state
            }).emit(
                Notice::AuthFailed(message),
            )
        } else {
            self
        }
    }

    /// Tells that an account is connected, once.
    #[verifier::opaque]
    pub open spec fn connected(self, user: User) -> Outcome {
        if self.state.sign_in.signed_in {
            self
        } else {
            self.at(WorkerModel {
                sign_in: SignInState { signed_in: true, ..self.state.sign_in },
                ..self.state
            }).tell(
                Event::Auth(AuthStatus::Connected { username: user.name_spec() }),
            )
        }
    }

    #[verifier::opaque]
    pub open spec fn on_web_verified(
        self,
        source: ApiSource,
        token: StoredToken,
        user: User,
    ) -> Outcome {
        let m = self.state;
        let account = AccountId { id: user.id };
        if !(m.state(source) is Authorizing) || (source == ApiSource::Personal && text_of(
            m.sign_in.web_client_id,
        ) != Some(token.client_id@)) {
            self
        } else if !may_install(m.state(crate::gateway::other_source(source)), account) {
            self.at(m.cleared(source)).refuse_account(source).finish_authorization(source)
        } else {
            self.at(m.with_state(source, SessionState::Ready { account })).account_verified(
                source,
                token,
                user,
            ).finish_authorization(source)
        }
    }

    /// A grant of another account than the one that is signed in.
    #[verifier::opaque]
    pub open spec fn refuse_account(self, source: ApiSource) -> Outcome {
        if source == ApiSource::Shared {
            self.at(WorkerModel {
                sign_in: SignInState { signed_in: false, ..self.state.sign_in },
                ..self.state
            }).emit(
                Notice::AuthFailed(Message::AnotherAccount),
            ).error(Message::AnotherAccount)
        } else {
            self.error(Message::AnotherAccount)
        }
    }

    /// The tokens of a verified account are stored from now on.
    #[verifier::opaque]
    pub open spec fn remember_tokens(self, source: ApiSource) -> Outcome {
        if self.state.tokens(source) {
            self.act(
                Effect::RememberTokens { source, lease: self.state.lease(slot_of(source)) },
            )
        } else {
            self
        }
    }

    /// An account that is not signed in yet is, and gets its engine.
    #[verifier::opaque]
    pub open spec fn account_known(self, user: User) -> Outcome {
        self.connected(user).tell(
            Event::Api(Box::new(ApiResponse::Me(Ok(user)))),
        ).on_account_checked(user.premium_spec())
    }

    #[verifier::opaque]
    pub open spec fn account_verified(
        self,
        source: ApiSource,
        token: StoredToken,
        user: User,
    ) -> Outcome {
        let kept = self.remember_tokens(source);
        match source {
            ApiSource::Shared => kept.account_known(user),
            ApiSource::Personal => {
                let named = kept.tell(Event::WebApp { client_id: Some(token.client_id) });
                if named.state.sign_in.signed_in {
                    named
                } else {
                    named.account_known(user)
                }
            },
        }
    }

    pub open spec fn web_signed_in(
        self,
        source: ApiSource,
        token: StoredToken,
        lease: Lease,
        attempt: u64,
    ) -> Outcome {
        let m = self.state;
        if m.credentials.holds(lease) && m.sign_in.authorizing == Some(source)
            && m.sign_in.attempt == attempt {
            self.on_web_signed_in(source, token)
        } else if m.sign_in.attempt == attempt {
            self.finish_authorization(source)
        } else {
            self
        }
    }

    pub open spec fn web_verified(
        self,
        source: ApiSource,
        token: StoredToken,
        user: User,
        lease: Lease,
        attempt: u64,
    ) -> Outcome {
        if self.state.credentials.holds(lease) {
            self.on_web_verified(source, token, user)
        } else if self.state.sign_in.attempt == attempt {
            self.finish_authorization(source)
        } else {
            self
        }
    }

    pub open spec fn web_verification_failed(
        self,
        source: ApiSource,
        lease: Lease,
        attempt: u64,
        error: ApiError,
    ) -> Outcome {
        let told = if self.state.credentials.holds(lease) {
            self.on_web_verification_failed(source, error)
        } else {
            self
        };
        if told.state.sign_in.attempt == attempt {
            told.finish_authorization(source)
        } else {
            told
        }
    }

    #[verifier::opaque]
    pub open spec fn configure_personal_web_app(
        self,
        client_id: Option<String>,
        problem: Option<String>,
    ) -> Outcome {
        let in_flight = self.state.sign_in.flow_open;
        let stopped = if in_flight {
            self.act(Effect::CancelFlow).at(self.state.invalidated(self.state.flow_slot()))
        } else {
            self
        };
        let m = stopped.state.invalidated(Slot::Personal);
        let rid = stopped.act(Effect::Revoke { slot: Slot::Personal }).act(
            Effect::DeleteStored { lease: m.lease(Slot::Personal) },
        ).act(Effect::DropTokens { source: ApiSource::Personal }).at(
            WorkerModel {
                sign_in: SignInState {
                    personal_tokens: false,
                    web_client_id: client_id,
                    client_problem: problem,
                    ..m.sign_in
                },
                ..m
            }.cleared(ApiSource::Personal),
        ).tell(Event::WebApp { client_id: None });
        if client_id is Some {
            if in_flight {
                rid.at(WorkerModel {
                    sign_in: SignInState {
                        pending: Some(ApiSource::Personal),
                        ..rid.state.sign_in
                    },
                    ..rid.state
                })
            } else {
                rid.sign_in_source(ApiSource::Personal)
            }
        } else {
            rid.at(WorkerModel {
                sign_in: SignInState { pending: None, ..rid.state.sign_in },
                ..rid.state
            })
        }
    }

    /// The engine, if any, is shut down.
    #[verifier::opaque]
    pub open spec fn drop_engine(self) -> Outcome {
        match self.state.playback.engine {
            Some(engine) => self.at(WorkerModel {
                playback: EngineState { engine: None, ..self.state.playback },
                ..self.state
            }).act(
                Effect::ShutdownEngine(engine),
            ),
            None => self,
        }
    }

    #[verifier::opaque]
    pub open spec fn sign_out(self) -> Outcome {
        let quiet = self.at(
            WorkerModel {
                sign_in: SignInState { spotify_restore_started: true, ..self.state.sign_in },
                ..self.state
            },
        ).cancel_search();
        let m = WorkerModel {
            sign_in: SignInState {
                signed_in: false,
                session: (quiet.state.sign_in.session + 1) as u64,
                attempt: (quiet.state.sign_in.attempt + 1) as u64,
                restoring: Restoring { shared: false, personal: false, playback: false },
                shared_tokens: false,
                personal_tokens: false,
                ..quiet.state.sign_in
            },
            playback: EngineState {
                rootlist_pending: false,
                playback_grant: None,
                engine_busy: false,
                premium: None,
                resume: None,
                resume_verify: None,
                ..quiet.state.playback
            },
            credentials: quiet.state.credentials.without_spotify(),
            lookup: quiet.state.lookup.reset_session(),
            ..quiet.state
        };
        quiet.at(m).act(Effect::SessionChanged { generation: m.sign_in.session }).act(
            Effect::RevokeSpotify,
        ).act(Effect::DropTokens { source: ApiSource::Shared }).act(
            Effect::DropTokens { source: ApiSource::Personal },
        ).drop_engine().forget_account()
    }

    /// Nobody is signed in, nothing is being signed in, and nothing is stored.
    #[verifier::opaque]
    pub open spec fn forget_account(self) -> Outcome {
        let stopped = if self.state.sign_in.flow_open {
            self.act(Effect::CancelFlow)
        } else {
            self
        };
        let m = WorkerModel {
            sign_in: SignInState {
                flow_open: false,
                authorizing: None,
                pending: None,
                ..self.state.sign_in
            },
            shared: SessionState::Unavailable,
            personal: SessionState::Unavailable,
            ..self.state
        };
        stopped.at(m).act(Effect::DeleteStored { lease: m.lease(Slot::Shared) }).act(
            Effect::DeleteStored { lease: m.lease(Slot::Personal) },
        ).act(Effect::DeleteStored { lease: m.lease(Slot::Playback) }).tell(
            Event::Playback(LocalPlayback::Unavailable),
        ).tell(Event::Auth(AuthStatus::SignedOut))
    }

    // ---- local playback --------------------------------------------------------------

    #[verifier::opaque]
    pub open spec fn connect_engine(self, credentials: Arc<PlaybackCredentials>) -> Outcome {
        let m = self.state;
        match m.network.network_error {
            Some(error) => self.playback_failed(Message::Plain(error)),
            None => if m.playback.engine_busy {
                self
            } else if m.playback.premium == Some(false) {
                self.playback_failed(Message::PremiumNeeded)
            } else {
                self.at(WorkerModel {
                    sign_in: SignInState { flow_open: false, ..m.sign_in },
                    playback: EngineState { engine_busy: true, ..m.playback },
                    ..m
                }).tell(
                    Event::Playback(LocalPlayback::Connecting),
                ).act(
                    Effect::ConnectEngine {
                        credentials,
                        config: m.playback.engine_config,
                        lease: m.lease(Slot::Playback),
                        session_generation: m.lookup.session_generation,
                    },
                )
            },
        }
    }

    #[verifier::opaque]
    pub open spec fn resume_engine(self) -> Outcome {
        let m = self.state;
        if !m.sign_in.signed_in || m.playback.engine is Some || m.playback.engine_busy
            || m.playback.premium == Some(false) {
            self
        } else {
            match m.playback.playback_grant {
                None => self,
                Some(credentials) => if text_of(credentials.username) != m.account_name() {
                    self.playback_failed(Message::StoredForAnother)
                } else {
                    self.connect_engine(credentials)
                },
            }
        }
    }

    #[verifier::opaque]
    pub open spec fn take_engine_for_resume(self, live: Live) -> Outcome {
        let m = WorkerModel {
            playback: EngineState { resume_verify: None, ..self.state.playback },
            lookup: self.state.lookup.requeue_active_for_new_engine(),
            ..self.state
        };
        match m.playback.engine {
            Some(engine) => self.at(
                WorkerModel {
                    playback: EngineState {
                        engine: None,
                        resume: live.resume_point,
                        ..m.playback
                    },
                    ..m
                },
            ).act(Effect::ShutdownEngine(engine)),
            None => self.at(m),
        }
    }

    #[verifier::opaque]
    pub open spec fn replace_engine(self, live: Live) -> Outcome {
        let m = self.state;
        if !m.sign_in.signed_in {
            self
        } else if m.playback.engine_busy {
            self.at(WorkerModel {
                playback: EngineState { restart_pending: true, ..m.playback },
                ..m
            })
        } else {
            self.take_engine_for_resume(live).resume_engine()
        }
    }

    #[verifier::opaque]
    pub open spec fn reconnect_engine(self, live: Live) -> Outcome {
        let m = self.state;
        if !m.sign_in.signed_in || m.playback.engine_busy {
            self
        } else {
            let drops = recent_drops(m.drops, live.now_ms);
            if drops.len() >= RECONNECT_LIMIT {
                let taken = self.at(WorkerModel { drops, ..m }).take_engine_for_resume(live);
                taken.at(WorkerModel {
                    playback: EngineState { resume: None, ..taken.state.playback },
                    ..taken.state
                }).playback_failed(
                    Message::KeepsDropping,
                )
            } else {
                self.at(WorkerModel { drops: drops.push(live.now_ms), ..m }).replace_engine(live)
            }
        }
    }

    #[verifier::opaque]
    pub open spec fn authorize_playback(self) -> Outcome {
        let m = self.state;
        match m.network.network_error {
            Some(error) => self.error(Message::Plain(error)),
            None => if m.playback.engine_busy || m.sign_in.flow_open {
                self
            } else if m.playback.premium == Some(false) {
                self.playback_failed(Message::PremiumNeeded)
            } else {
                let next = WorkerModel {
                    sign_in: SignInState {
                        attempt: (m.sign_in.attempt + 1) as u64,
                        flow_open: true,
                        ..m.invalidated(Slot::Playback).sign_in
                    },
                    ..m.invalidated(Slot::Playback)
                };
                self.at(next).tell(Event::Playback(LocalPlayback::Authorizing)).act(
                    Effect::BeginPlaybackSignIn {
                        lease: next.lease(Slot::Playback),
                        attempt: next.sign_in.attempt,
                    },
                )
            },
        }
    }

    #[verifier::opaque]
    pub open spec fn on_playback_authorized(
        self,
        credentials: Option<Arc<PlaybackCredentials>>,
    ) -> Outcome {
        match credentials {
            None => self.at(WorkerModel {
                playback: EngineState { engine_busy: false, ..self.state.playback },
                ..self.state
            }).playback_failed(
                Message::FinishSigningIn,
            ),
            Some(credentials) => self.connect_engine(credentials),
        }
    }

    #[verifier::opaque]
    pub open spec fn start_rootlist(self) -> Outcome {
        let m = self.state;
        if !m.sign_in.signed_in || !m.playback.rootlist_pending || m.playback.engine is None {
            self
        } else {
            self.at(WorkerModel {
                playback: EngineState { rootlist_pending: false, ..m.playback },
                ..m
            }).act(
                Effect::ReadRootlist { engine: m.playback.engine->0, generation: m.sign_in.session },
            )
        }
    }

    #[verifier::opaque]
    pub open spec fn start_album_type_lookup(self) -> Outcome {
        let m = self.state;
        match (m.playback.engine, m.lookup.next_request()) {
            (Some(engine), Some(request)) => self.at(
                WorkerModel { lookup: m.lookup.next(), ..m },
            ).act(Effect::LookUpAlbumType { engine, request }),
            _ => self,
        }
    }

    pub open spec fn discard(self, engine: Option<ReadyEngine>) -> Outcome {
        match engine {
            Some(ready) => self.act(Effect::ShutdownEngine(ready.engine)),
            None => self,
        }
    }

    /// An engine that has connected takes over.
    #[verifier::opaque]
    pub open spec fn install_engine(self, ready: ReadyEngine) -> Outcome {
        let m = self.state;
        if ready.credentials is Some && !grant_matches(*ready.credentials->0, m.account()) {
            self.act(Effect::ShutdownEngine(ready.engine)).playback_failed(
                Message::AuthorizedForAnother,
            )
        } else {
            self.adopt_credentials(ready.credentials).begin_resume().run_engine(
                ready.engine,
                ready.device_id,
            )
        }
    }

    /// What the engine can sign in with again is kept and stored.
    #[verifier::opaque]
    pub open spec fn adopt_credentials(
        self,
        credentials: Option<Arc<PlaybackCredentials>>,
    ) -> Outcome {
        match credentials {
            Some(grant) => self.at(
                WorkerModel {
                    playback: EngineState { playback_grant: Some(grant), ..self.state.playback },
                    ..self.state
                },
            ).act(Effect::StorePlayback { lease: self.state.lease(Slot::Playback), grant }),
            None => self,
        }
    }

    /// What was playing is picked up, a little later.
    #[verifier::opaque]
    pub open spec fn begin_resume(self) -> Outcome {
        match self.state.playback.resume {
            Some(point) => self.at(
                WorkerModel {
                    playback: EngineState {
                        resume: None,
                        resume_verify: Some((point, 0)),
                        ..self.state.playback
                    },
                    ..self.state
                },
            ).act(Effect::ScheduleResumeCheck { delay_ms: FIRST_RESUME_CHECK_MS }),
            None => self,
        }
    }

    /// The engine is there, and gets the work that waited for one.
    #[verifier::opaque]
    pub open spec fn run_engine(self, engine: Ticket, device_id: String) -> Outcome {
        let listed = self.at(WorkerModel {
            playback: EngineState { engine: Some(engine), ..self.state.playback },
            ..self.state
        }).start_rootlist();
        listed.at(WorkerModel { drops: Seq::empty(), ..listed.state }).tell(
            Event::Playback(LocalPlayback::Ready { device_id }),
        ).start_album_type_lookup()
    }

    #[verifier::opaque]
    pub open spec fn on_engine_connected(
        self,
        session_generation: u64,
        engine: Option<ReadyEngine>,
        error: Option<Message>,
    ) -> Outcome {
        let m = self.state;
        if !m.sign_in.signed_in || session_generation != m.lookup.session_generation {
            self.discard(engine)
        } else {
            let free = self.at(WorkerModel {
                playback: EngineState { engine_busy: false, ..m.playback },
                ..m
            });
            if m.playback.restart_pending {
                free.at(WorkerModel {
                    playback: EngineState { restart_pending: false, ..free.state.playback },
                    ..free.state
                }).discard(
                    engine,
                ).resume_engine()
            } else {
                match engine {
                    Some(ready) => free.install_engine(ready),
                    None => free.at(WorkerModel {
                        playback: EngineState { resume: None, ..free.state.playback },
                        ..free.state
                    }).playback_failed(
                        match error {
                            Some(message) => message,
                            None => Message::PlaybackUnavailable,
                        },
                    ),
                }
            }
        }
    }

    pub open spec fn engine_connected(
        self,
        session_generation: u64,
        engine: Option<ReadyEngine>,
        error: Option<Message>,
        lease: Lease,
    ) -> Outcome {
        if self.state.credentials.holds(lease) && self.state.sign_in.signed_in {
            self.on_engine_connected(session_generation, engine, error)
        } else {
            self.discard(engine)
        }
    }

    #[verifier::opaque]
    pub open spec fn on_account_checked(self, premium: Option<bool>) -> Outcome {
        let m = WorkerModel {
            playback: EngineState { premium, ..self.state.playback },
            ..self.state
        };
        if premium == Some(false) {
            let cleared = self.at(
                WorkerModel { lookup: m.lookup.clear_engine_work(), ..m },
            ).drop_engine();
            if cleared.state.playback.playback_grant is Some {
                cleared.playback_failed(Message::PremiumNeeded)
            } else {
                cleared
            }
        } else {
            self.at(m).resume_engine()
        }
    }

    #[verifier::opaque]
    pub open spec fn verify_resume(self, live: Live) -> Outcome {
        let m = WorkerModel {
            playback: EngineState { resume_verify: None, ..self.state.playback },
            ..self.state
        };
        match (self.state.playback.resume_verify, m.playback.engine) {
            (Some((point, tries)), Some(engine)) => if live.playing || tries >= RESUME_TRIES {
                self.at(m)
            } else {
                self.at(WorkerModel {
                    playback: EngineState {
                        resume_verify: Some((point, (tries + 1) as u8)),
                        ..m.playback
                    },
                    ..m
                }).act(
                    Effect::Resume { engine, point },
                ).act(Effect::ScheduleResumeCheck { delay_ms: NEXT_RESUME_CHECK_MS })
            },
            _ => self.at(m),
        }
    }

    #[verifier::opaque]
    pub open spec fn fetch_rootlist(self) -> Outcome {
        if !self.state.sign_in.signed_in {
            self
        } else {
            self.at(WorkerModel {
                playback: EngineState { rootlist_pending: true, ..self.state.playback },
                ..self.state
            }).start_rootlist()
        }
    }

    #[verifier::opaque]
    pub open spec fn on_rootlist_finished(
        self,
        generation: u64,
        result: Result<Rootlist, String>,
    ) -> Outcome {
        if self.state.sign_in.signed_in && generation == self.state.sign_in.session {
            self.tell(Event::Rootlist { result })
        } else {
            self
        }
    }

    #[verifier::opaque]
    pub open spec fn fetch_album_types(self, uris: Seq<String>) -> Outcome {
        let m = self.state;
        self.at(
            WorkerModel {
                lookup: m.lookup.enqueue(m.sign_in.signed_in, m.playback.premium, uris),
                ..m
            },
        ).start_album_type_lookup()
    }

    #[verifier::opaque]
    pub open spec fn on_album_type_resolved(
        self,
        request: AlbumTypeRequest,
        result: Result<bool, String>,
    ) -> Outcome {
        let m = self.state;
        if !m.sign_in.signed_in || !m.lookup.accepts(request) {
            self
        } else {
            self.at(WorkerModel { lookup: m.lookup.finish(request), ..m }).tell(
                Event::AlbumType { uri: request.uri, result },
            ).start_album_type_lookup()
        }
    }

    #[verifier::opaque]
    pub open spec fn activate_receiver(self, receiver: Receiver) -> Outcome {
        let m = self.state;
        let credentials = match m.playback.playback_grant {
            Some(grant) => if text_of(grant.username) == m.account_name() {
                Some(grant)
            } else {
                None
            },
            None => None,
        };
        self.act(
            Effect::ActivateReceiver { receiver, credentials, lease: m.lease(Slot::Playback) },
        )
    }

    // ---- network settings ------------------------------------------------------------

    #[verifier::opaque]
    pub open spec fn use_proxy(self, config: ProxyConfig) -> Outcome {
        self.at(
            WorkerModel {
                network: NetworkState { network_error: None, ..self.state.network },
                playback: EngineState {
                    engine_config: EngineConfig { proxy: config, ..self.state.playback.engine_config },
                    ..self.state.playback
                },
                ..self.state
            },
        ).act(Effect::UseProxy(config))
    }

    #[verifier::opaque]
    pub open spec fn persist_proxy_password(self, config: ProxyConfig) -> Outcome {
        match config.manual() {
            None => self,
            Some(proxy) => {
                let m = self.state.invalidated(Slot::Proxy);
                let lease = m.lease(Slot::Proxy);
                match proxy.password {
                    Some(password) => self.at(m).act(Effect::SaveProxyPassword { lease, password }),
                    None => self.at(m).act(Effect::RevokeProxyPassword { lease }),
                }
            },
        }
    }

    #[verifier::opaque]
    pub open spec fn restore_spotify_grants(self) -> Outcome {
        let m = self.state;
        if m.sign_in.spotify_restore_started {
            self
        } else {
            let shared = WorkerModel {
                sign_in: SignInState {
                    spotify_restore_started: true,
                    restoring: Restoring { shared: true, personal: true, playback: true },
                    ..m.sign_in
                },
                shared: SessionState::Authorizing,
                ..m
            };
            let both = if m.sign_in.web_client_id is Some {
                WorkerModel { personal: SessionState::Authorizing, ..shared }
            } else {
                shared
            };
            self.at(both).act(Effect::LoadCredential { lease: m.lease(Slot::Shared) }).act(
                Effect::LoadCredential { lease: m.lease(Slot::Personal) },
            ).act(Effect::LoadCredential { lease: m.lease(Slot::Playback) })
        }
    }

    #[verifier::opaque]
    pub open spec fn finish_proxy_restore(self) -> Outcome {
        if !self.state.network.restoring_proxy {
            self
        } else {
            self.at(
                WorkerModel {
                    network: NetworkState { restoring_proxy: false, ..self.state.network },
                    ..self.state
                },
            ).restore_spotify_grants().release_waiting()
        }
    }

    /// The commands that waited are handed in again.
    #[verifier::opaque]
    pub open spec fn release_waiting(self) -> Outcome {
        Outcome {
            state: WorkerModel { waiting: Seq::empty(), ..self.state },
            effects: self.effects + self.state.waiting.map_values(
                |command: Command| Effect::Requeue(command),
            ),
        }
    }

    #[verifier::opaque]
    pub open spec fn change_proxy(
        self,
        request: u64,
        config: ProxyConfig,
        built: ProxyBuild,
        sign_in: bool,
        live: Live,
    ) -> Outcome {
        match built {
            Err(error) => self.tell(Event::ProxyApplied { request, config, result: Err(error) }),
            Ok(url) => {
                let restart = text_of(self.state.playback.engine_proxy) != text_of(url);
                self.use_proxy(config).replace_if(restart, live).proxy_changed(
                    request,
                    config,
                    restart,
                ).sign_in_if(sign_in)
            },
        }
    }

    #[verifier::opaque]
    pub open spec fn replace_if(self, restart: bool, live: Live) -> Outcome {
        if restart {
            self.replace_engine(live)
        } else {
            self
        }
    }

    #[verifier::opaque]
    pub open spec fn sign_in_if(self, sign_in: bool) -> Outcome {
        if sign_in {
            self.sign_in_source(ApiSource::Shared)
        } else {
            self
        }
    }

    /// New network settings are told, their password is stored, and what
    /// waited for settings goes on.
    #[verifier::opaque]
    pub open spec fn proxy_changed(
        self,
        request: u64,
        config: ProxyConfig,
        restart: bool,
    ) -> Outcome {
        self.at(WorkerModel {
            network: NetworkState { proxy_revision: request, ..self.state.network },
            ..self.state
        }).tell(
            Event::ProxyApplied { request, config, result: Ok(restart) },
        ).persist_proxy_password(config).finish_proxy_restore()
    }

    /// Tells what the store said about the proxy's password.
    pub open spec fn proxy_storage_told(self, result: Result<Loaded, StorageError>) -> Outcome {
        match result {
            Ok(loaded) => match loaded.warning {
                Some(error) => self.tell(Event::ProxyStorageFailed(error)),
                None => self,
            },
            Err(error) => self.tell(Event::ProxyStorageFailed(error)),
        }
    }

    #[verifier::opaque]
    pub open spec fn on_proxy_restored(
        self,
        lease: Lease,
        result: Result<Loaded, StorageError>,
    ) -> Outcome {
        if !self.state.credentials.holds(lease) {
            self
        } else {
            let told = self.proxy_storage_told(result);
            let password = stored_password(result);
            let protected = result is Ok && result->Ok_0.warning is None;
            if told.state.network.proxy_revision == 0 {
                told.act(
                    Effect::BuildRestoredProxy {
                        config: match password {
                            Some(password) => told.state.playback.engine_config.proxy.with_password(
                                password,
                            ),
                            None => told.state.playback.engine_config.proxy,
                        },
                        password,
                        protected,
                    },
                )
            } else {
                told.proxy_password_protected(protected)
            }
        }
    }

    #[verifier::opaque]
    pub open spec fn proxy_password_protected(self, protected: bool) -> Outcome {
        let told = if protected {
            self.tell(Event::ProxyPasswordStored)
        } else {
            self
        };
        told.finish_proxy_restore()
    }

    #[verifier::opaque]
    pub open spec fn restored_proxy_built(
        self,
        config: ProxyConfig,
        password: Option<ProxyPassword>,
        protected: bool,
        built: ProxyBuild,
    ) -> Outcome {
        let used = match built {
            Ok(_) => self.use_proxy(config).tell(Event::ProxyRestored { config, password }),
            Err(error) => {
                let invalid = ProxyConfig::Invalid(error);
                self.at(
                    WorkerModel {
                        network: NetworkState {
                            network_error: Some(error),
                            ..self.state.network
                        },
                        playback: EngineState {
                            engine_config: EngineConfig {
                                proxy: invalid,
                                ..self.state.playback.engine_config
                            },
                            ..self.state.playback
                        },
                        ..self.state
                    },
                ).act(Effect::BlockNetwork(error)).error(Message::Network(error)).tell(
                    Event::ProxyRestored { config: invalid, password },
                )
            },
        };
        used.proxy_password_protected(protected)
    }

    // ---- stored credentials ----------------------------------------------------------

    /// A grant that was read from the store is used.
    #[verifier::opaque]
    pub open spec fn use_grant(self, slot: Slot, grant: Option<Grant>) -> Outcome {
        match grant {
            Some(Grant::Playback(credentials)) => self.at(
                WorkerModel {
                    playback: EngineState {
                        playback_grant: Some(credentials),
                        ..self.state.playback
                    },
                    ..self.state
                },
            ).resume_engine(),
            Some(Grant::Web(token)) => {
                let source = source_of(slot);
                if source == ApiSource::Shared || text_of(self.state.sign_in.web_client_id) == Some(
                    token.client_id@,
                ) {
                    if covers(token.scope@, self.state.scopes) {
                        let told = if self.state.sign_in.signed_in {
                            self
                        } else {
                            self.tell(Event::Auth(AuthStatus::Connecting))
                        };
                        told.on_web_signed_in(source, token)
                    } else {
                        self.error(Message::PermissionsChanged)
                    }
                } else {
                    self
                }
            },
            _ => self,
        }
    }

    #[verifier::opaque]
    pub open spec fn on_credentials_restored(
        self,
        slot: Slot,
        lease: Lease,
        result: Result<Loaded, StorageError>,
    ) -> Outcome {
        if slot == Slot::Proxy || !self.state.credentials.holds(lease) {
            self
        } else {
            self.at(
                WorkerModel {
                    sign_in: SignInState {
                        restoring: self.state.sign_in.restoring.without(slot),
                        ..self.state.sign_in
                    },
                    ..self.state
                },
            ).use_loaded(slot, result).clear_without_tokens(slot).tell_if_signed_out()
        }
    }

    /// What was read from the store is told and used.
    #[verifier::opaque]
    pub open spec fn use_loaded(self, slot: Slot, result: Result<Loaded, StorageError>) -> Outcome {
        match result {
            Ok(loaded) => {
                let told = match loaded.warning {
                    Some(error) => self.error(Message::Storage(error)),
                    None => self,
                };
                told.use_grant(slot, loaded.grant)
            },
            Err(error) => self.error(Message::Storage(error)),
        }
    }

    /// An application without a grant is not being signed in.
    #[verifier::opaque]
    pub open spec fn clear_without_tokens(self, slot: Slot) -> Outcome {
        if slot != Slot::Playback && !self.state.tokens(source_of(slot)) {
            self.at(self.state.cleared(source_of(slot)))
        } else {
            self
        }
    }

    /// Once everything was read and nothing was found, nobody is signed in.
    #[verifier::opaque]
    pub open spec fn tell_if_signed_out(self) -> Outcome {
        let m = self.state;
        if !m.sign_in.restoring.any() && !m.sign_in.signed_in && !m.sign_in.shared_tokens
            && !m.sign_in.personal_tokens {
            self.tell(Event::Auth(AuthStatus::SignedOut))
        } else {
            self
        }
    }

    // ---- answers of the Web API -------------------------------------------------------

    #[verifier::opaque]
    pub open spec fn api_finished(
        self,
        generation: u64,
        response: Box<ApiResponse>,
        expired: Option<ApiSource>,
        shared_lease: Lease,
        personal_lease: Lease,
    ) -> Outcome {
        let m = self.state;
        if generation != m.sign_in.session {
            self
        } else {
            let stale = match expired {
                Some(ApiSource::Shared) => !m.credentials.holds(shared_lease),
                Some(ApiSource::Personal) => !m.credentials.holds(personal_lease),
                None => false,
            };
            if stale {
                self
            } else {
                let rid = match expired {
                    Some(ApiSource::Personal) => self.forget_web_grant(ApiSource::Personal).tell(
                        Event::WebApp { client_id: None },
                    ),
                    Some(ApiSource::Shared) => {
                        let forgotten = self.forget_web_grant(ApiSource::Shared);
                        forgotten.at(WorkerModel {
                            sign_in: SignInState { signed_in: false, ..forgotten.state.sign_in },
                            ..forgotten.state
                        }).emit(
                            Notice::AuthFailed(Message::SignInExpired),
                        )
                    },
                    None => self,
                };
                let checked = match *response {
                    ApiResponse::Me(Ok(user)) => if rid.state.sign_in.signed_in && rid.state.account_name()
                        == Some(user.id@) {
                        rid.on_account_checked(user.premium_spec())
                    } else {
                        rid
                    },
                    _ => rid,
                };
                checked.tell(Event::Api(response))
            }
        }
    }

    // ---- one command --------------------------------------------------------------------

    pub open spec fn for_account(self, effect: spec_fn(AccountId) -> Effect) -> Outcome {
        match self.state.account() {
            Some(account) => self.act(effect(account)),
            None => self,
        }
    }

    /// What a command does. While the proxy's password is being read, most
    /// commands wait.
    pub open spec fn step(self, command: Command, live: Live) -> Outcome {
        if self.state.network.restoring_proxy && !command.precedes_network() {
            self.at(WorkerModel { waiting: self.state.waiting.push(command), ..self.state })
        } else {
            self.obey(command, live)
        }
    }

    #[verifier::opaque]
    pub open spec fn obey(self, command: Command, live: Live) -> Outcome {
        match command {
            Command::ProxyRestored { lease, result } => self.on_proxy_restored(lease, result),
            Command::CredentialsRestored { slot, lease, result } => self.on_credentials_restored(
                slot,
                lease,
                result,
            ),
            Command::SignIn { request, config, built } => self.change_proxy(
                request,
                config,
                built,
                true,
                live,
            ),
            Command::ApplyProxy { request, config, built } => self.change_proxy(
                request,
                config,
                built,
                false,
                live,
            ),
            Command::CancelSignIn => self.cancel_sign_in(),
            Command::SignOut => self.sign_out(),
            Command::AuthorizePlayback => self.authorize_playback(),
            Command::RestartEngine(config) => self.at(
                WorkerModel { playback: EngineState { engine_config: EngineConfig {
                        proxy: self.state.playback.engine_config.proxy,
                        ..config
                    }, ..self.state.playback }, ..self.state },
            ).replace_engine(live),
            Command::Player(command) => match self.state.playback.engine {
                Some(engine) => self.act(Effect::EngineCommand { engine, command }),
                None => self.error(Message::NoLocalPlayback),
            },
            Command::Api(request) => match request {
                ApiRequest::Search { query, serial } => self.search(query, serial),
                _ => self.dispatch(request),
            },
            Command::ApiFinished { generation, response, expired, shared_lease, personal_lease } =>
                self.api_finished(generation, response, expired, shared_lease, personal_lease),
            Command::Shutdown => self.drop_engine().act(Effect::Stop),
            Command::WebSignedIn { source, token, lease, attempt } => self.web_signed_in(
                source,
                token,
                lease,
                attempt,
            ),
            Command::WebVerified { source, token, user, lease, attempt } => self.web_verified(
                source,
                token,
                user,
                lease,
                attempt,
            ),
            Command::WebVerificationFailed { source, lease, attempt, error } =>
                self.web_verification_failed(source, lease, attempt, error),
            Command::SignInEnded { source, attempt } => self.sign_in_ended(source, attempt),
            Command::PlaybackAuthEnded { attempt } => self.finish_playback_authorization(attempt),
            Command::PlaybackAuthorized { access_token, lease, attempt } =>
                if self.state.credentials.holds(lease) {
                self.on_playback_authorized(
                    bound_credentials(self.state.account(), access_token),
                )
            } else {
                self.finish_playback_authorization(attempt)
            },
            Command::EngineConnected { session_generation, engine, error, lease } =>
                self.engine_connected(session_generation, engine, error, lease),
            Command::Reconnect => self.reconnect_engine(live),
            Command::ActivateReceiver(receiver) => self.activate_receiver(receiver),
            Command::Rootlist => self.fetch_rootlist(),
            Command::RootlistFinished { generation, result } => self.on_rootlist_finished(
                generation,
                result,
            ),
            Command::VerifyResume => self.verify_resume(live),
            Command::ConfigurePersonalWebApp { client_id, problem } =>
                self.configure_personal_web_app(client_id, problem),
            Command::LoadPlaylistCache { id, generation } => self.for_account(
                |account: AccountId| Effect::ReadPlaylistCache { account, id, generation },
            ),
            Command::StorePlaylistCache { id, snapshot, items, total, next_offset } =>
                self.for_account(
                |account: AccountId|
                    Effect::WritePlaylistCache { account, id, snapshot, items, total, next_offset },
            ),
            Command::UserNames(ids) => match self.state.playback.engine {
                Some(engine) => self.act(Effect::ReadUserNames { engine, ids }),
                None => self,
            },
            Command::LoadLikedSongsCache { generation } => self.for_account(
                |account: AccountId| Effect::ReadLikedSongsCache { account, generation },
            ),
            Command::StoreLikedSongsCache { account_id, cache } => if self.state.account_name()
                == Some(account_id@) {
                self.act(Effect::WriteLikedSongsCache { account_id, cache })
            } else {
                self
            },
            Command::AlbumTypes(uris) => self.fetch_album_types(uris@),
            Command::AlbumTypeResolved { request, result } => self.on_album_type_resolved(
                request,
                result,
            ),
            Command::OpenThemesFolder
            | Command::CheckPlaylistCover { .. }
            | Command::ChoosePlaylistCover { .. }
            | Command::Accent { .. }
            | Command::DiscoverReceivers
            | Command::CheckForUpdates { .. }
            | Command::InspectUpdate
            | Command::DownloadUpdate { .. }
            | Command::InstallUpdate { .. }
            | Command::Lyrics(_) => self.act(Effect::Perform(command)),
        }
    }
}

/// The password that was read from the store.
pub open spec fn stored_password(result: Result<Loaded, StorageError>) -> Option<ProxyPassword> {
    match result {
        Ok(loaded) => match loaded.grant {
            Some(Grant::Proxy(password)) => Some(password),
            _ => None,
        },
        Err(_) => None,
    }
}

} // verus!
