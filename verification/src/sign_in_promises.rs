//! What comes of signing in and out, and of new network settings, when nothing
//! stands in the way.

use vstd::prelude::*;

use crate::api::ApiResponse;
use crate::credentials::{Ledger, Lease, Slot, StoredToken};
use crate::error::{ApiError, ApiSource};
use crate::events::{
    AuthStatus, Command, Effect, Event, LocalPlayback, Message, Notice, ProxyConfig,
};
use crate::gateway::{AccountId, SessionState};
use crate::models::{text_of, User};
use crate::worker_model::{EngineState, Live, NetworkState, Outcome, SignInState, WorkerModel};

verus! {

/// The lease of an application's grant that counts in a state.
pub open spec fn web_lease(state: WorkerModel, source: ApiSource) -> Lease {
    match source {
        ApiSource::Shared => Lease { slot: Slot::Shared, epoch: state.credentials.shared },
        ApiSource::Personal => Lease { slot: Slot::Personal, epoch: state.credentials.personal },
    }
}

/// The session of an application.
pub open spec fn session_of(state: WorkerModel, source: ApiSource) -> SessionState {
    match source {
        ApiSource::Shared => state.shared,
        ApiSource::Personal => state.personal,
    }
}

/// Whether the tokens of an application are held.
pub open spec fn holds_tokens(state: WorkerModel, source: ApiSource) -> bool {
    match source {
        ApiSource::Shared => state.sign_in.shared_tokens,
        ApiSource::Personal => state.sign_in.personal_tokens,
    }
}

// ---- what steps on the way leave alone ----------------------------------------------

proof fn connecting_leaves(o: Outcome, live: Live)
    ensures
        ({
            let (r, c) = (o.replace_engine(live), o.resume_engine());
            &&& r.adds_to(o) && c.adds_to(o)
            &&& r.state.credentials == o.state.credentials
            &&& c.state.credentials == o.state.credentials
            &&& r.state.sign_in == (SignInState {
                flow_open: r.state.sign_in.flow_open,
                ..o.state.sign_in
            })
            &&& c.state.sign_in == (SignInState {
                flow_open: c.state.sign_in.flow_open,
                ..o.state.sign_in
            })
            &&& !o.state.sign_in.flow_open ==> !r.state.sign_in.flow_open
                && !c.state.sign_in.flow_open
            &&& r.state.shared == o.state.shared && r.state.personal == o.state.personal
            &&& c.state.shared == o.state.shared && c.state.personal == o.state.personal
            &&& r.state.network == o.state.network && c.state.network == o.state.network
            &&& r.state.playback.engine_config == o.state.playback.engine_config
            &&& c.state.playback.premium == o.state.playback.premium
            &&& c.state.playback.playback_grant == o.state.playback.playback_grant
            &&& c.state.lookup == o.state.lookup
            &&& r.state.waiting == o.state.waiting
        }),
{
    reveal(Outcome::replace_engine);
    reveal(Outcome::take_engine_for_resume);
    reveal(Outcome::resume_engine);
    reveal(Outcome::connect_engine);
}

proof fn settling_leaves(o: Outcome, request: u64, config: ProxyConfig, restart: bool)
    ensures
        ({
            let r = o.proxy_changed(request, config, restart);
            &&& r.adds_to(o)
            &&& r.effects.len() > o.effects.len()
            &&& r.effects[o.effects.len() as int] == Effect::Emit(
                Notice::Event(Event::ProxyApplied { request, config, result: Ok(restart) }),
            )
            &&& r.state.credentials == (Ledger {
                proxy: r.state.credentials.proxy,
                ..o.state.credentials
            })
            &&& r.state.sign_in.flow_open == o.state.sign_in.flow_open
            &&& r.state.sign_in.attempt == o.state.sign_in.attempt
            &&& r.state.sign_in.web_client_id == o.state.sign_in.web_client_id
            &&& r.state.network == (NetworkState {
                proxy_revision: request,
                restoring_proxy: false,
                ..o.state.network
            })
            &&& r.state.playback == o.state.playback
        }),
{
    reveal(Outcome::proxy_changed);
    reveal(Outcome::persist_proxy_password);
    reveal(Outcome::finish_proxy_restore);
    reveal(Outcome::restore_spotify_grants);
    reveal(Outcome::release_waiting);
}

proof fn checking_leaves(o: Outcome, premium: Option<bool>)
    ensures
        ({
            let r = o.on_account_checked(premium);
            &&& r.adds_to(o)
            &&& r.state.playback.premium == premium
            &&& r.state.credentials == o.state.credentials
            &&& r.state.sign_in == (SignInState {
                flow_open: r.state.sign_in.flow_open,
                ..o.state.sign_in
            })
            &&& r.state.shared == o.state.shared && r.state.personal == o.state.personal
        }),
{
    let m = WorkerModel {
        playback: EngineState { premium, ..o.state.playback },
        ..o.state
    };
    connecting_leaves(o.at(m), arbitrary());
    reveal(Outcome::on_account_checked);
    reveal(Outcome::drop_engine);
}

proof fn finishing_leaves(o: Outcome, source: ApiSource)
    ensures
        ({
            let r = o.finish_authorization(source);
            &&& r.adds_to(o)
            &&& r.state.playback == o.state.playback
            &&& r.state.sign_in.signed_in == o.state.sign_in.signed_in
            &&& o.state.sign_in.pending != Some(ApiSource::Shared) ==> r.state.shared
                == o.state.shared
            &&& o.state.sign_in.pending != Some(ApiSource::Personal) ==> r.state.personal
                == o.state.personal
            &&& o.state.sign_in.authorizing == Some(source) && o.state.sign_in.pending is None
                ==> !r.state.sign_in.flow_open && r.state.sign_in.authorizing is None
        }),
{
    reveal(Outcome::finish_authorization);
    reveal(Outcome::start_pending);
    reveal(Outcome::sign_in_source);
}

// ---- signing in ---------------------------------------------------------------------

/// Signing in opens the browser for the shared application, under a lease that
/// is the only one to count from now on, through the network settings that were
/// given.
pub proof fn a_sign_in_opens_the_browser(
    state: WorkerModel,
    request: u64,
    config: ProxyConfig,
    url: Option<String>,
    live: Live,
)
    requires
        !state.sign_in.flow_open,
        state.credentials.shared < u64::MAX,
        state.sign_in.attempt < u64::MAX,
    ensures
        ({
            let after = Outcome::start(state).step(
                Command::SignIn { request, config, built: Ok(url) },
                live,
            );
            &&& after.effects.len() > 1
            &&& after.effects[0] == Effect::UseProxy(config)
            &&& after.effects.last() == (Effect::BeginSignIn {
                source: ApiSource::Shared,
                client_id: None,
                lease: Lease {
                    slot: Slot::Shared,
                    epoch: (state.credentials.shared + 1) as u64,
                },
                attempt: (state.sign_in.attempt + 1) as u64,
                announce: true,
            })
            &&& after.state.shared is Authorizing
            &&& after.state.sign_in.flow_open
            &&& after.state.sign_in.authorizing == Some(ApiSource::Shared)
            &&& after.state.credentials.shared == state.credentials.shared + 1
            &&& after.state.sign_in.attempt == state.sign_in.attempt + 1
            &&& after.state.playback.engine_config.proxy == config
            &&& after.state.network.network_error is None
        }),
{
    reveal(Outcome::obey);
    reveal(Outcome::change_proxy);
    reveal(Outcome::use_proxy);
    reveal(Outcome::replace_if);
    reveal(Outcome::sign_in_if);
    let used = Outcome::start(state).use_proxy(config);
    connecting_leaves(used, live);
    let restart = text_of(state.playback.engine_proxy) != text_of(url);
    let replaced = used.replace_if(restart, live);
    assert(replaced.effects[0] == used.effects[0]);
    settling_leaves(replaced, request, config, restart);
    let settled = replaced.proxy_changed(request, config, restart);
    assert(settled.effects[0] == replaced.effects[0]);
    reveal(Outcome::sign_in_source);
}

/// A grant that the browser brought for the sign-in under way is held, and whose
/// account it is is found out.
pub proof fn a_fresh_grant_is_verified(
    state: WorkerModel,
    source: ApiSource,
    token: StoredToken,
    live: Live,
)
    requires
        !state.network.restoring_proxy,
        state.sign_in.authorizing == Some(source),
    ensures
        ({
            let (lease, attempt) = (web_lease(state, source), state.sign_in.attempt);
            let after = Outcome::start(state).step(
                Command::WebSignedIn { source, token, lease, attempt },
                live,
            );
            &&& after.effects == seq![Effect::Verify { source, token, lease, attempt }]
            &&& holds_tokens(after.state, source)
            &&& session_of(after.state, source) is Authorizing
            &&& after.state.credentials == state.credentials
            &&& after.state.playback == state.playback
        }),
{
    reveal(Outcome::obey);
    reveal(Outcome::on_web_signed_in);
    let (lease, attempt) = (web_lease(state, source), state.sign_in.attempt);
    assert(Outcome::start(state).step(
        Command::WebSignedIn { source, token, lease, attempt },
        live,
    ).effects =~= seq![Effect::Verify { source, token, lease, attempt }]);
}

/// Once a grant's account is known, its session is ready and its tokens are
/// stored. The first account to be known is signed in: the listener is told by the
/// name they show, or by their id, and gets what is known of them. A personal
/// application is named.
pub proof fn a_verified_grant_signs_in(
    state: WorkerModel,
    source: ApiSource,
    token: StoredToken,
    user: User,
    attempt: u64,
    live: Live,
)
    requires
        !state.network.restoring_proxy,
        session_of(state, source) is Authorizing,
        source == ApiSource::Personal ==> (state.sign_in.web_client_id matches Some(id) && id@
            == token.client_id@),
        source == ApiSource::Shared ==> (state.personal matches SessionState::Ready { account }
            ==> account.id@ == user.id@),
        source == ApiSource::Personal ==> (state.shared matches SessionState::Ready { account }
            ==> account.id@ == user.id@),
    ensures
        ({
            let lease = web_lease(state, source);
            let after = Outcome::start(state).step(
                Command::WebVerified { source, token, user, lease, attempt },
                live,
            );
            let first = !state.sign_in.signed_in;
            &&& state.sign_in.pending != Some(source) ==> session_of(after.state, source) == (
            SessionState::Ready { account: AccountId { id: user.id } })
            &&& after.state.sign_in.signed_in
            &&& holds_tokens(state, source) ==> after.effects.contains(
                Effect::RememberTokens { source, lease },
            )
            &&& first ==> after.effects.contains(
                Effect::Emit(
                    Notice::Event(
                        Event::Auth(
                            AuthStatus::Connected {
                                username: match user.display_name {
                                    Some(name) => name,
                                    None => user.id,
                                },
                            },
                        ),
                    ),
                ),
            )
            &&& first || source == ApiSource::Shared ==> after.effects.contains(
                Effect::Emit(Notice::Event(Event::Api(Box::new(ApiResponse::Me(Ok(user)))))),
            )
            &&& first || source == ApiSource::Shared ==> after.state.playback.premium == (
            match user.product {
                Some(product) => Some(product@ == "premium"@),
                None => None,
            })
            &&& source == ApiSource::Personal ==> after.effects.contains(
                Effect::Emit(
                    Notice::Event(Event::WebApp { client_id: Some(token.client_id) }),
                ),
            )
            &&& state.sign_in.authorizing == Some(source) && state.sign_in.pending is None
                ==> !after.state.sign_in.flow_open && after.state.sign_in.authorizing is None
        }),
{
    let lease = web_lease(state, source);
    let command = Command::WebVerified { source, token, user, lease, attempt };
    let after = Outcome::start(state).step(command, live);
    let o = Outcome::start(state);
    let account = AccountId { id: user.id };
    let ready = o.at(state.with_state(source, SessionState::Ready { account }));
    let kept = ready.remember_tokens(source);
    let named = match source {
        ApiSource::Shared => kept,
        ApiSource::Personal => kept.tell(Event::WebApp { client_id: Some(token.client_id) }),
    };
    let told = named.connected(user);
    let known = told.tell(Event::Api(Box::new(ApiResponse::Me(Ok(user)))));
    let checked = known.on_account_checked(user.premium_spec());
    let done = ready.account_verified(source, token, user);
    reveal(Outcome::obey);
    reveal(Outcome::on_web_verified);
    reveal(Outcome::remember_tokens);
    reveal(Outcome::account_verified);
    reveal(Outcome::account_known);
    reveal(Outcome::connected);
    checking_leaves(known, user.premium_spec());
    finishing_leaves(done, source);
    assert(after == done.finish_authorization(source));
    assert(after.adds_to(done));
    let count = kept.effects.len() as int;
    if state.tokens(source) {
        assert(done.effects[0] == (Effect::RememberTokens { source, lease }));
        assert(after.effects[0] == done.effects[0]);
    }
    if source == ApiSource::Personal {
        assert(done.effects[count] == named.effects[count]);
        assert(after.effects[count] == done.effects[count]);
    }
    let base = named.effects.len() as int;
    if !state.sign_in.signed_in {
        assert(done == checked);
        assert(told.effects.len() == base + 1);
        assert(done.effects[base] == told.effects[base]);
        assert(after.effects[base] == done.effects[base]);
        assert(done.effects[base + 1] == known.effects[base + 1]);
        assert(after.effects[base + 1] == done.effects[base + 1]);
    } else if source == ApiSource::Shared {
        assert(done == checked);
        assert(done.effects[base] == known.effects[base]);
        assert(after.effects[base] == done.effects[base]);
    }
}

/// A grant whose account cannot be found out is not used, and that is told. Without
/// the shared session, or without any other, nobody is signed in any more. A grant
/// that has expired is withdrawn and deleted; any other stays stored.
pub proof fn a_failed_verification_is_told(
    state: WorkerModel,
    source: ApiSource,
    error: ApiError,
    attempt: u64,
    live: Live,
)
    requires
        !state.network.restoring_proxy,
        state.sign_in.attempt != attempt,
        state.credentials.shared < u64::MAX,
        state.credentials.personal < u64::MAX,
    ensures
        ({
            let lease = web_lease(state, source);
            let after = Outcome::start(state).step(
                Command::WebVerificationFailed { source, lease, attempt, error },
                live,
            );
            let message = match source {
                ApiSource::Shared => Message::SharedSignIn(error),
                ApiSource::Personal => Message::PersonalSignIn(error),
            };
            let slot = match source {
                ApiSource::Shared => Slot::Shared,
                ApiSource::Personal => Slot::Personal,
            };
            let lost = source == ApiSource::Shared || !(state.shared is Ready);
            let next = Lease { slot, epoch: (lease.epoch + 1) as u64 };
            let forgotten = if error is SignInExpired {
                seq![
                    Effect::Revoke { slot },
                    Effect::DeleteStored { lease: next },
                    Effect::DropTokens { source },
                ]
            } else {
                Seq::<Effect>::empty()
            };
            let told = if lost {
                seq![Effect::Emit(Notice::AuthFailed(message))]
            } else {
                Seq::<Effect>::empty()
            };
            &&& after.effects == forgotten + told + seq![Effect::Emit(Notice::Error(message))]
            &&& session_of(after.state, source) is Unavailable
            &&& after.state.sign_in.signed_in == (state.sign_in.signed_in && !lost)
            &&& error is SignInExpired ==> !holds_tokens(after.state, source) && web_lease(
                after.state,
                source,
            ) == next
            &&& !(error is SignInExpired) ==> after.state.credentials == state.credentials
        }),
{
    reveal(Outcome::obey);
    reveal(Outcome::on_web_verification_failed);
    reveal(Outcome::without_grant);
    reveal(Outcome::forget_web_grant);
    reveal(Outcome::sign_in_lost);
    let lease = web_lease(state, source);
    let after = Outcome::start(state).step(
        Command::WebVerificationFailed { source, lease, attempt, error },
        live,
    );
    let message = match source {
        ApiSource::Shared => Message::SharedSignIn(error),
        ApiSource::Personal => Message::PersonalSignIn(error),
    };
    let lost = source == ApiSource::Shared || !(state.shared is Ready);
    if error is SignInExpired {
        assert(after.effects.len() == if lost {
            5int
        } else {
            4
        });
    } else {
        assert(after.effects.len() == if lost {
            2int
        } else {
            1
        });
    }
}

/// Cancelling a sign-in stops waiting for the browser, and nothing that it would
/// bring counts any more. The session that was being signed in is not.
pub proof fn a_cancelled_sign_in_comes_to_nothing(state: WorkerModel, live: Live)
    requires
        state.credentials.spare(1),
        state.sign_in.attempt < u64::MAX,
    ensures
        ({
            let after = Outcome::start(state).step(Command::CancelSignIn, live);
            &&& after.effects == if state.sign_in.flow_open {
                seq![Effect::CancelFlow]
            } else {
                Seq::<Effect>::empty()
            }
            &&& !after.state.sign_in.flow_open
            &&& after.state.sign_in.authorizing is None
            &&& after.state.sign_in.pending is None
            &&& after.state.sign_in.attempt == state.sign_in.attempt + 1
            &&& state.sign_in.flow_open ==> (match state.sign_in.authorizing {
                Some(source) => web_lease(after.state, source) != web_lease(state, source)
                    && !(session_of(after.state, source) is Authorizing),
                None => after.state.credentials.playback == state.credentials.playback + 1,
            })
            &&& !state.sign_in.flow_open ==> after.state.credentials == state.credentials
            &&& state.sign_in.authorizing != Some(ApiSource::Shared) ==> after.state.shared
                == state.shared
            &&& state.sign_in.authorizing != Some(ApiSource::Personal) ==> after.state.personal
                == state.personal
            &&& after.state.playback == state.playback
            &&& after.state.sign_in.signed_in == state.sign_in.signed_in
        }),
{
    reveal(Outcome::obey);
    reveal(Outcome::cancel_sign_in);
    reveal(Outcome::stop_flow);
    reveal(Outcome::abandon_authorization);
    let after = Outcome::start(state).step(Command::CancelSignIn, live);
    assert(after.effects =~= if state.sign_in.flow_open {
        seq![Effect::CancelFlow]
    } else {
        Seq::<Effect>::empty()
    });
}

/// A sign-in that ended without a grant makes room: the one that waits for it, if
/// any, opens the browser next.
pub proof fn a_waiting_sign_in_has_its_turn(
    state: WorkerModel,
    source: ApiSource,
    id: String,
    live: Live,
)
    requires
        !state.network.restoring_proxy,
        state.network.network_error is None,
        state.sign_in.client_problem is None,
        state.sign_in.web_client_id == Some(id),
        state.credentials.personal < u64::MAX,
        state.sign_in.attempt < u64::MAX,
    ensures
        ({
            let begun = Effect::BeginSignIn {
                source: ApiSource::Personal,
                client_id: Some(id),
                lease: Lease {
                    slot: Slot::Personal,
                    epoch: (state.credentials.personal + 1) as u64,
                },
                attempt: (state.sign_in.attempt + 1) as u64,
                announce: false,
            };
            let attempt = state.sign_in.attempt;
            let ended = Outcome::start(state).step(Command::SignInEnded { source, attempt }, live);
            let granted = Outcome::start(state).step(Command::PlaybackAuthEnded { attempt }, live);
            &&& state.sign_in.authorizing == Some(source) && state.sign_in.pending == Some(
                ApiSource::Personal,
            ) ==> ended.effects == seq![begun] && ended.state.personal is Authorizing
                && ended.state.sign_in.pending is None && ended.state.sign_in.flow_open
            &&& state.sign_in.authorizing == Some(source) && state.sign_in.pending is None
                ==> ended.effects.len() == 0 && !ended.state.sign_in.flow_open
                && ended.state.sign_in.authorizing is None && !(session_of(ended.state, source)
                is Authorizing)
            &&& state.sign_in.pending == Some(ApiSource::Personal) ==> granted.effects == seq![
                begun,
            ] && granted.state.personal is Authorizing
            &&& state.sign_in.pending is None ==> granted.effects.len() == 0
                && !granted.state.sign_in.flow_open
        }),
{
    reveal(Outcome::obey);
    reveal(Outcome::sign_in_ended);
    reveal(Outcome::finish_playback_authorization);
    reveal(Outcome::start_pending);
    reveal(Outcome::sign_in_source);
    let attempt = state.sign_in.attempt;
    let ended = Outcome::start(state).step(Command::SignInEnded { source, attempt }, live);
    let granted = Outcome::start(state).step(Command::PlaybackAuthEnded { attempt }, live);
    assert(ended.effects.len() <= 1);
    assert(granted.effects.len() <= 1);
}

/// A personal application that is added is signed in, by its own id; what was
/// held of another one is withdrawn and deleted. One that is removed is told to be
/// gone.
pub proof fn a_personal_application_is_replaced(
    state: WorkerModel,
    client_id: Option<String>,
    live: Live,
)
    requires
        !state.network.restoring_proxy,
        state.network.network_error is None,
        !state.sign_in.flow_open,
        state.credentials.personal + 2 <= u64::MAX,
        state.sign_in.attempt < u64::MAX,
    ensures
        ({
            let after = Outcome::start(state).step(
                Command::ConfigurePersonalWebApp { client_id, problem: None },
                live,
            );
            let epoch = (state.credentials.personal + 1) as u64;
            let gone = seq![
                Effect::Revoke { slot: Slot::Personal },
                Effect::DeleteStored { lease: Lease { slot: Slot::Personal, epoch } },
                Effect::DropTokens { source: ApiSource::Personal },
                Effect::Emit(Notice::Event(Event::WebApp { client_id: None })),
            ];
            &&& client_id is None ==> after.effects == gone && after.state.personal is Unavailable
            &&& client_id is Some ==> after.effects == gone + seq![
                Effect::BeginSignIn {
                    source: ApiSource::Personal,
                    client_id,
                    lease: Lease { slot: Slot::Personal, epoch: (epoch + 1) as u64 },
                    attempt: (state.sign_in.attempt + 1) as u64,
                    announce: false,
                },
            ] && after.state.personal is Authorizing && after.state.sign_in.flow_open
            &&& after.state.sign_in.web_client_id == client_id
            &&& !after.state.sign_in.personal_tokens
            &&& after.state.shared == state.shared
            &&& after.state.sign_in.shared_tokens == state.sign_in.shared_tokens
            &&& after.state.credentials.shared == state.credentials.shared
        }),
{
    reveal(Outcome::obey);
    reveal(Outcome::configure_personal_web_app);
    reveal(Outcome::sign_in_source);
    let after = Outcome::start(state).step(
        Command::ConfigurePersonalWebApp { client_id, problem: None },
        live,
    );
    assert(after.effects.len() == if client_id is Some {
        5int
    } else {
        4
    });
}

/// While another sign-in is under way, it is stopped, and the personal application
/// waits for its turn.
pub proof fn a_personal_application_may_have_to_wait(
    state: WorkerModel,
    id: String,
    problem: Option<String>,
    live: Live,
)
    requires
        !state.network.restoring_proxy,
        state.sign_in.flow_open,
    ensures
        ({
            let after = Outcome::start(state).step(
                Command::ConfigurePersonalWebApp { client_id: Some(id), problem },
                live,
            );
            &&& after.effects.len() == 5
            &&& after.effects[0] == Effect::CancelFlow
            &&& after.state.sign_in.pending == Some(ApiSource::Personal)
            &&& after.state.sign_in.web_client_id == Some(id)
            &&& after.state.sign_in.client_problem == problem
        }),
{
    reveal(Outcome::obey);
    reveal(Outcome::configure_personal_web_app);
}

// ---- signing out --------------------------------------------------------------------

/// Signing out ends everything that the account had: what is under way is
/// cancelled, the engine is shut down, what is stored is withdrawn and deleted, and
/// the listener is told. No lease or session from before counts any more.
pub proof fn a_sign_out_ends_everything(state: WorkerModel, live: Live)
    requires
        state.roomy(1),
    ensures
        ({
            let after = Outcome::start(state).step(Command::SignOut, live);
            let down = Effect::RevokeSpotify;
            &&& after.effects.contains(down)
            &&& after.effects.contains(
                Effect::SessionChanged { generation: (state.sign_in.session + 1) as u64 },
            )
            &&& after.effects.contains(Effect::DropTokens { source: ApiSource::Shared })
            &&& after.effects.contains(Effect::DropTokens { source: ApiSource::Personal })
            &&& after.effects.contains(
                Effect::DeleteStored {
                    lease: Lease {
                        slot: Slot::Shared,
                        epoch: (state.credentials.shared + 1) as u64,
                    },
                },
            )
            &&& after.effects.contains(
                Effect::DeleteStored {
                    lease: Lease {
                        slot: Slot::Personal,
                        epoch: (state.credentials.personal + 1) as u64,
                    },
                },
            )
            &&& after.effects.contains(
                Effect::DeleteStored {
                    lease: Lease {
                        slot: Slot::Playback,
                        epoch: (state.credentials.playback + 1) as u64,
                    },
                },
            )
            &&& after.effects.contains(
                Effect::Emit(Notice::Event(Event::Playback(LocalPlayback::Unavailable))),
            )
            &&& after.effects.last() == Effect::Emit(
                Notice::Event(Event::Auth(AuthStatus::SignedOut)),
            )
            &&& state.playback.engine matches Some(engine) ==> after.effects.contains(
                Effect::ShutdownEngine(engine),
            )
            &&& state.sign_in.flow_open ==> after.effects.contains(Effect::CancelFlow)
            &&& forall|i: int|
                0 <= i < state.searches.len() ==> #[trigger] after.effects[i] == (
                Effect::CancelTask { task: state.searches[i] })
            &&& !after.state.sign_in.signed_in && !after.state.sign_in.shared_tokens
                && !after.state.sign_in.personal_tokens
            &&& after.state.shared is Unavailable && after.state.personal is Unavailable
            &&& after.state.playback.engine is None && after.state.playback.playback_grant is None
            &&& !after.state.playback.engine_busy && after.state.playback.premium is None
            &&& !after.state.sign_in.flow_open && after.state.sign_in.authorizing is None
            &&& after.state.sign_in.session == state.sign_in.session + 1
            &&& after.state.sign_in.attempt == state.sign_in.attempt + 1
            &&& after.state.credentials.shared == state.credentials.shared + 1
            &&& after.state.credentials.personal == state.credentials.personal + 1
            &&& after.state.credentials.playback == state.credentials.playback + 1
            &&& after.state.credentials.proxy == state.credentials.proxy
            &&& after.state.network == state.network
        }),
{
    reveal(Outcome::obey);
    reveal(Outcome::sign_out);
    reveal(Outcome::cancel_search);
    reveal(Outcome::drop_engine);
    reveal(Outcome::forget_account);
    let after = Outcome::start(state).step(Command::SignOut, live);
    let n = state.searches.len() as int;
    let m = after.effects.len() as int;
    assert(after.effects[n] == (Effect::SessionChanged {
        generation: (state.sign_in.session + 1) as u64,
    }));
    assert(after.effects[n + 1] == Effect::RevokeSpotify);
    assert(after.effects[n + 2] == (Effect::DropTokens { source: ApiSource::Shared }));
    assert(after.effects[n + 3] == (Effect::DropTokens { source: ApiSource::Personal }));
    if state.playback.engine is Some {
        assert(after.effects[n + 4] == Effect::ShutdownEngine(state.playback.engine->0));
    }
    if state.sign_in.flow_open {
        assert(after.effects[m - 6] == Effect::CancelFlow);
    }
    assert(after.effects[m - 5] is DeleteStored);
    assert(after.effects[m - 4] is DeleteStored);
    assert(after.effects[m - 3] is DeleteStored);
    assert(after.effects[m - 2] == Effect::Emit(
        Notice::Event(Event::Playback(LocalPlayback::Unavailable)),
    ));
}

// ---- what does not fit --------------------------------------------------------------

/// A grant of another account than the one that is signed in is refused, and that is
/// told: its session does not open, and the other one stays.
pub proof fn a_second_account_is_refused(
    state: WorkerModel,
    source: ApiSource,
    held: AccountId,
    token: StoredToken,
    user: User,
    attempt: u64,
    live: Live,
)
    requires
        !state.network.restoring_proxy,
        session_of(state, source) is Authorizing,
        state.sign_in.authorizing != Some(source),
        held.id@ != user.id@,
        source == ApiSource::Personal ==> state.shared == (SessionState::Ready { account: held })
            && (state.sign_in.web_client_id matches Some(id) && id@ == token.client_id@),
        source == ApiSource::Shared ==> state.personal == (SessionState::Ready { account: held }),
    ensures
        ({
            let after = Outcome::start(state).step(
                Command::WebVerified {
                    source,
                    token,
                    user,
                    lease: web_lease(state, source),
                    attempt,
                },
                live,
            );
            &&& session_of(after.state, source) is Unavailable
            &&& source == ApiSource::Personal ==> after.state.shared == state.shared
                && after.effects == seq![Effect::Emit(Notice::Error(Message::AnotherAccount))]
                && after.state.sign_in.signed_in == state.sign_in.signed_in
            &&& source == ApiSource::Shared ==> after.state.personal == state.personal
                && after.effects == seq![
                Effect::Emit(Notice::AuthFailed(Message::AnotherAccount)),
                Effect::Emit(Notice::Error(Message::AnotherAccount)),
            ] && !after.state.sign_in.signed_in
        }),
{
    reveal(Outcome::obey);
    reveal(Outcome::on_web_verified);
    reveal(Outcome::refuse_account);
    reveal(Outcome::finish_authorization);
    let after = Outcome::start(state).step(
        Command::WebVerified { source, token, user, lease: web_lease(state, source), attempt },
        live,
    );
    assert(after.effects.len() == if source == ApiSource::Shared {
        2int
    } else {
        1
    });
}

/// A grant that was withdrawn since, or that belongs to another attempt, is not used.
pub proof fn a_late_grant_is_not_used(
    state: WorkerModel,
    source: ApiSource,
    token: StoredToken,
    user: User,
    lease: Lease,
    attempt: u64,
    live: Live,
)
    requires
        !state.network.restoring_proxy,
        attempt != state.sign_in.attempt,
        lease.slot == web_lease(state, source).slot,
        lease.epoch != web_lease(state, source).epoch,
    ensures
        Outcome::start(state).step(
            Command::WebSignedIn { source, token, lease, attempt },
            live,
        ) == Outcome::start(state),
        Outcome::start(state).step(
            Command::WebVerified { source, token, user, lease, attempt },
            live,
        ) == Outcome::start(state),
        Outcome::start(state).step(
            Command::SignInEnded { source, attempt },
            live,
        ) == Outcome::start(state),
        Outcome::start(state).step(Command::PlaybackAuthEnded { attempt }, live)
            == Outcome::start(state),
{
    reveal(Outcome::obey);
    reveal(Outcome::sign_in_ended);
    reveal(Outcome::finish_playback_authorization);
}

/// A personal application that no grant can be asked for is not signed in, and the listener
/// is told why. While the network is blocked, that is told instead.
pub proof fn a_personal_application_may_have_a_problem(
    state: WorkerModel,
    id: String,
    problem: String,
    live: Live,
)
    requires
        !state.network.restoring_proxy,
        !state.sign_in.flow_open,
    ensures
        ({
            let after = Outcome::start(state).step(
                Command::ConfigurePersonalWebApp { client_id: Some(id), problem: Some(problem) },
                live,
            );
            &&& after.effects.len() == 5
            &&& after.effects[4] == Effect::Emit(
                Notice::Error(
                    Message::Plain(
                        match state.network.network_error {
                            Some(error) => error,
                            None => problem,
                        },
                    ),
                ),
            )
            &&& !after.state.sign_in.flow_open
            &&& after.state.personal is Unavailable
            &&& after.state.sign_in.client_problem == Some(problem)
        }),
{
    reveal(Outcome::obey);
    reveal(Outcome::configure_personal_web_app);
    reveal(Outcome::sign_in_source);
}

/// The personal sign-in that waits for the shared one begins once that has its account.
pub proof fn a_waiting_sign_in_follows_a_verified_one(
    state: WorkerModel,
    token: StoredToken,
    user: User,
    id: String,
    attempt: u64,
    live: Live,
)
    requires
        !state.network.restoring_proxy,
        state.network.network_error is None,
        state.shared is Authorizing,
        !(state.personal is Ready),
        state.sign_in.authorizing == Some(ApiSource::Shared),
        state.sign_in.pending == Some(ApiSource::Personal),
        state.sign_in.web_client_id == Some(id),
        state.sign_in.client_problem is None,
        state.credentials.personal < u64::MAX,
        state.sign_in.attempt < u64::MAX,
    ensures
        ({
            let after = Outcome::start(state).step(
                Command::WebVerified {
                    source: ApiSource::Shared,
                    token,
                    user,
                    lease: Lease { slot: Slot::Shared, epoch: state.credentials.shared },
                    attempt,
                },
                live,
            );
            &&& after.effects.len() > 0
            &&& after.effects.last() == (Effect::BeginSignIn {
                source: ApiSource::Personal,
                client_id: Some(id),
                lease: Lease {
                    slot: Slot::Personal,
                    epoch: (state.credentials.personal + 1) as u64,
                },
                attempt: (state.sign_in.attempt + 1) as u64,
                announce: false,
            })
            &&& after.state.personal is Authorizing
            &&& after.state.shared == (SessionState::Ready { account: AccountId { id: user.id } })
            &&& after.state.sign_in.pending is None
        }),
{
    let account = AccountId { id: user.id };
    let ready = Outcome::start(state).at(
        state.with_state(ApiSource::Shared, SessionState::Ready { account }),
    );
    let kept = ready.remember_tokens(ApiSource::Shared);
    let told = kept.connected(user);
    let known = told.tell(Event::Api(Box::new(ApiResponse::Me(Ok(user)))));
    reveal(Outcome::obey);
    reveal(Outcome::on_web_verified);
    reveal(Outcome::remember_tokens);
    reveal(Outcome::account_verified);
    reveal(Outcome::account_known);
    reveal(Outcome::connected);
    checking_leaves(known, user.premium_spec());
    checking_keeps_the_network(known, user.premium_spec());
    reveal(Outcome::finish_authorization);
    reveal(Outcome::start_pending);
    reveal(Outcome::sign_in_source);
}

proof fn checking_keeps_the_network(o: Outcome, premium: Option<bool>)
    ensures
        o.on_account_checked(premium).state.network == o.state.network,
{
    let m = WorkerModel { playback: EngineState { premium, ..o.state.playback }, ..o.state };
    connecting_leaves(o.at(m), arbitrary());
    reveal(Outcome::on_account_checked);
    reveal(Outcome::drop_engine);
}

/// What the browser brings for an earlier attempt is not used, whatever its lease.
pub proof fn an_earlier_attempt_is_over(
    state: WorkerModel,
    source: ApiSource,
    token: StoredToken,
    lease: Lease,
    attempt: u64,
    live: Live,
)
    requires
        !state.network.restoring_proxy,
        attempt != state.sign_in.attempt,
    ensures
        Outcome::start(state).step(
            Command::WebSignedIn { source, token, lease, attempt },
            live,
        ) == Outcome::start(state),
{
    reveal(Outcome::obey);
}

/// A grant that comes when its application is no longer being signed in only closes the
/// attempt.
pub proof fn a_grant_that_nobody_waits_for_is_not_used(
    state: WorkerModel,
    source: ApiSource,
    token: StoredToken,
    lease: Lease,
    live: Live,
)
    requires
        !state.network.restoring_proxy,
        state.sign_in.authorizing != Some(source) || (lease.slot == web_lease(state, source).slot
            && lease.epoch != web_lease(state, source).epoch),
        state.sign_in.pending is None,
    ensures
        ({
            let after = Outcome::start(state).step(
                Command::WebSignedIn { source, token, lease, attempt: state.sign_in.attempt },
                live,
            );
            &&& after.effects.len() == 0
            &&& after.state.shared == state.shared && after.state.personal == state.personal
            &&& after.state.sign_in.shared_tokens == state.sign_in.shared_tokens
                && after.state.sign_in.personal_tokens == state.sign_in.personal_tokens
            &&& state.sign_in.authorizing == Some(source) ==> !after.state.sign_in.flow_open
        }),
{
    reveal(Outcome::obey);
    reveal(Outcome::finish_authorization);
    reveal(Outcome::start_pending);
}

} // verus!
