//! What holds of the worker whatever it is told, and in whatever order.

use std::sync::Arc;

use vstd::prelude::*;

use crate::album_types::AlbumTypeRequest;
use crate::api::{ApiRequest, ApiResponse};
use crate::credentials::{slot_of, Ledger, Lease, Slot, StoredToken};
use crate::error::{ApiError, ApiSource};
use crate::events::{
    bound_credentials, AuthStatus, Command, Effect, EngineConfig, Event, Grant, Loaded,
    LocalPlayback, Message, Notice, PlaybackCredentials, ProxyBuild, ProxyConfig, ProxyPassword,
    ReadyEngine, StorageError, Ticket,
};
use crate::gateway::{may_install, one_account, other_source, AccountId, SessionState};
use crate::models::{text_of, User};
use crate::worker_model::{
    grant_matches, recent_drops, still_counts, EngineState, Live, NetworkState, Outcome,
    SignInState, WorkerModel, RECONNECT_LIMIT, RESUME_TRIES,
};

verus! {

impl WorkerModel {
    /// What holds of a worker at all times.
    pub open spec fn sound(self) -> bool {
        // Both applications are signed in to one account.
        &&& one_account(self.shared, self.personal)
        // A pickup is tried a few times at most.
        &&& self.playback.resume_verify matches Some((_, tries)) ==> tries <= RESUME_TRIES
        &&& self.drops.len() <= RECONNECT_LIMIT
        &&& self.searches.len() <= 2
        // Commands wait only while the proxy's password is being read.
        &&& !self.network.restoring_proxy ==> self.waiting.len() == 0
        // The shared sign-in never waits for the personal one.
        &&& self.sign_in.pending != Some(ApiSource::Shared)
        &&& self.sign_in.restoring.any() ==> self.sign_in.spotify_restore_started
    }

    /// Nothing that was withdrawn since an earlier state counts again.
    pub open spec fn grew(self, before: WorkerModel) -> bool {
        &&& before.credentials.shared <= self.credentials.shared
        &&& before.credentials.personal <= self.credentials.personal
        &&& before.credentials.playback <= self.credentials.playback
        &&& before.credentials.proxy <= self.credentials.proxy
        &&& before.sign_in.attempt <= self.sign_in.attempt
        &&& before.sign_in.session <= self.sign_in.session
        &&& before.tasks.next_task <= self.tasks.next_task
    }
}

impl Outcome {
    /// Whether no engine was connected since an earlier point.
    pub open spec fn connects_none_since(self, before: Outcome) -> bool {
        forall|i: int|
            before.effects.len() <= i < self.effects.len() ==> !(#[trigger] self.effects[i]
                is ConnectEngine)
    }

    /// Whether everything done outside before was left as it was.
    pub open spec fn adds_to(self, before: Outcome) -> bool {
        &&& before.effects.len() <= self.effects.len()
        &&& forall|i: int|
            0 <= i < before.effects.len() ==> #[trigger] self.effects[i] == before.effects[i]
    }

    /// Whether the plan is what it was, or has become unknown, and a connection
    /// that was under way still is.
    pub open spec fn keeps_plan(self, before: Outcome) -> bool {
        &&& self.state.playback.premium == before.state.playback.premium
            || self.state.playback.premium is None
        &&& before.state.playback.engine_busy ==> self.state.playback.engine_busy
    }

    /// How every outcome relates to an earlier point that it was reached from.
    pub open spec fn follows(self, before: Outcome, times: nat) -> bool {
        &&& before.state.sound() ==> self.state.sound()
        &&& before.state.roomy(times) ==> self.state.grew(before.state) && self.state.counted(
            before.state,
            times,
        )
        &&& self.adds_to(before)
        &&& self.state.playback.engine_proxy == before.state.playback.engine_proxy
        &&& self.state.playback.premium == Some(false) ==> self.connects_none_since(before)
        &&& !self.state.playback.engine_busy ==> self.connects_none_since(before)
    }
}

proof fn following_chains(a: Outcome, b: Outcome, c: Outcome, first: nat, second: nat)
    requires
        b.follows(a, first),
        c.follows(b, second),
        c.keeps_plan(b) || b.connects_none_since(a),
    ensures
        c.follows(a, first + second),
{
    assert forall|i: int| 0 <= i < a.effects.len() implies #[trigger] c.effects[i]
        == a.effects[i] by {
        assert(b.effects[i] == a.effects[i]);
    }
    if c.state.playback.premium == Some(false) || !c.state.playback.engine_busy {
        assert forall|i: int| a.effects.len() <= i < c.effects.len() implies !(
        #[trigger] c.effects[i] is ConnectEngine) by {
            if i < b.effects.len() {
                assert(c.effects[i] == b.effects[i]);
            }
        }
    }
}

proof fn following_allows_more(a: Outcome, b: Outcome, times: nat, more: nat)
    requires
        b.follows(a, times),
        times <= more,
    ensures
        b.follows(a, more),
{
}

// ---- searches and requests ----------------------------------------------------------

proof fn dispatch_follows(o: Outcome, request: ApiRequest)
    ensures
        o.dispatch(request).follows(o, 1),
        o.dispatch(request).keeps_plan(o),
        o.dispatch(request).state.searches == o.state.searches,
        o.dispatch(request).state == (WorkerModel {
            tasks: o.dispatch(request).state.tasks,
            ..o.state
        }),
{
    reveal(Outcome::dispatch);
}

proof fn cancel_search_follows(o: Outcome)
    ensures
        o.cancel_search().follows(o, 0),
        o.cancel_search().keeps_plan(o),
        o.cancel_search().connects_none_since(o),
        o.cancel_search().state == (WorkerModel { searches: Seq::empty(), ..o.state }),
{
    reveal(Outcome::cancel_search);
}

proof fn search_dispatch_follows(o: Outcome, request: ApiRequest)
    requires
        o.state.searches.len() < 2,
    ensures
        o.search_dispatch(request).follows(o, 1),
        o.search_dispatch(request).keeps_plan(o),
        o.search_dispatch(request).state.searches.len() == o.state.searches.len() + 1,
{
    reveal(Outcome::search_dispatch);
    dispatch_follows(o, request);
}

proof fn search_follows(o: Outcome, query: String, serial: u64)
    ensures
        o.search(query, serial).follows(o, 2),
        o.search(query, serial).keeps_plan(o),
{
    reveal(Outcome::search);
    let free = o.cancel_search();
    cancel_search_follows(o);
    if query@.len() == 0 {
        following_allows_more(o, free, 0, 2);
    } else {
        let split = o.state.personal is Ready;
        let told = free.tell(
            Event::Api(Box::new(ApiResponse::SearchStarted { query, serial, split })),
        );
        following_chains(o, free, told, 0, 0);
        if split {
            let first = ApiRequest::SearchPlaylists { query, serial };
            let one = told.search_dispatch(first);
            search_dispatch_follows(told, first);
            let second = ApiRequest::SearchCatalogue { query, serial };
            search_dispatch_follows(one, second);
            following_chains(o, told, one, 0, 1);
            following_chains(o, one, one.search_dispatch(second), 1, 1);
        } else {
            let only = ApiRequest::Search { query, serial };
            search_dispatch_follows(told, only);
            following_chains(o, told, told.search_dispatch(only), 0, 1);
            following_allows_more(o, told.search_dispatch(only), 1, 2);
        }
    }
}

// ---- signing in ---------------------------------------------------------------------

proof fn sign_in_source_follows(o: Outcome, source: ApiSource)
    ensures
        o.sign_in_source(source).follows(o, 1),
        o.sign_in_source(source).keeps_plan(o),
        o.sign_in_source(source).connects_none_since(o),
{
    reveal(Outcome::sign_in_source);
}

proof fn start_pending_follows(o: Outcome)
    ensures
        o.start_pending().follows(o, 1),
        o.start_pending().keeps_plan(o),
        o.start_pending().connects_none_since(o),
{
    reveal(Outcome::start_pending);
    if let Some(source) = o.state.sign_in.pending {
        let next = o.at(
            WorkerModel {
                sign_in: SignInState { pending: None, ..o.state.sign_in },
                ..o.state
            },
        );
        sign_in_source_follows(next, source);
        following_chains(o, next, next.sign_in_source(source), 0, 1);
    }
}

proof fn finish_authorization_follows(o: Outcome, source: ApiSource)
    ensures
        o.finish_authorization(source).follows(o, 1),
        o.finish_authorization(source).keeps_plan(o),
        o.finish_authorization(source).connects_none_since(o),
{
    reveal(Outcome::finish_authorization);
    let next = o.at(
        WorkerModel {
            sign_in: SignInState { flow_open: false, authorizing: None, ..o.state.sign_in },
            ..o.state
        },
    );
    start_pending_follows(next);
    following_chains(o, next, next.start_pending(), 0, 1);
}

proof fn finish_playback_authorization_follows(o: Outcome, attempt: u64)
    ensures
        o.finish_playback_authorization(attempt).follows(o, 1),
        o.finish_playback_authorization(attempt).keeps_plan(o),
{
    reveal(Outcome::finish_playback_authorization);
    let next = o.at(
        WorkerModel { sign_in: SignInState { flow_open: false, ..o.state.sign_in }, ..o.state },
    );
    start_pending_follows(next);
    following_chains(o, next, next.start_pending(), 0, 1);
}

proof fn sign_in_ended_follows(o: Outcome, source: ApiSource, attempt: u64)
    ensures
        o.sign_in_ended(source, attempt).follows(o, 1),
        o.sign_in_ended(source, attempt).keeps_plan(o),
{
    reveal(Outcome::sign_in_ended);
    let ended = WorkerModel {
        sign_in: SignInState { flow_open: false, authorizing: None, ..o.state.sign_in },
        ..o.state
    };
    let next = o.at(
        if ended.state(source) is Authorizing {
            ended.cleared(source)
        } else {
            ended
        },
    );
    start_pending_follows(next);
    following_chains(o, next, next.start_pending(), 0, 1);
}

proof fn cancel_sign_in_follows(o: Outcome)
    ensures
        o.cancel_sign_in().follows(o, 1),
        o.cancel_sign_in().keeps_plan(o),
{
    reveal(Outcome::cancel_sign_in);
    reveal(Outcome::stop_flow);
    reveal(Outcome::abandon_authorization);
}

proof fn on_web_signed_in_follows(o: Outcome, source: ApiSource, token: StoredToken)
    ensures
        o.on_web_signed_in(source, token).follows(o, 0),
        o.on_web_signed_in(source, token).keeps_plan(o),
{
    reveal(Outcome::on_web_signed_in);
}

proof fn forget_web_grant_follows(o: Outcome, source: ApiSource)
    ensures
        o.forget_web_grant(source).follows(o, 1),
        o.forget_web_grant(source).keeps_plan(o),
        o.forget_web_grant(source).connects_none_since(o),
{
    reveal(Outcome::forget_web_grant);
}

proof fn on_web_verification_failed_follows(o: Outcome, source: ApiSource, error: ApiError)
    ensures
        o.on_web_verification_failed(source, error).follows(o, 1),
        o.on_web_verification_failed(source, error).keeps_plan(o),
{
    reveal(Outcome::on_web_verification_failed);
    reveal(Outcome::without_grant);
    reveal(Outcome::sign_in_lost);
    forget_web_grant_follows(o, source);
    let message = match source {
        ApiSource::Shared => Message::SharedSignIn(error),
        ApiSource::Personal => Message::PersonalSignIn(error),
    };
    let rid = o.without_grant(source, error is SignInExpired);
    assert(rid.follows(o, 1));
    following_chains(o, rid, o.on_web_verification_failed(source, error), 1, 0);
}

proof fn connected_follows(o: Outcome, user: User)
    ensures
        o.connected(user).follows(o, 0),
        o.connected(user).keeps_plan(o),
        o.connected(user).connects_none_since(o),
{
    reveal(Outcome::connected);
}

// ---- local playback -----------------------------------------------------------------

proof fn drop_engine_follows(o: Outcome)
    ensures
        o.drop_engine().follows(o, 0),
        o.drop_engine().keeps_plan(o),
        o.drop_engine().connects_none_since(o),
{
    reveal(Outcome::drop_engine);
}

proof fn sign_out_follows(o: Outcome)
    ensures
        o.sign_out().follows(o, 1),
{
    reveal(Outcome::sign_out);
    reveal(Outcome::cancel_search);
    reveal(Outcome::drop_engine);
    reveal(Outcome::forget_account);
}

proof fn connect_engine_follows(o: Outcome, credentials: Arc<PlaybackCredentials>)
    ensures
        o.connect_engine(credentials).follows(o, 0),
        o.connect_engine(credentials).keeps_plan(o),
{
    reveal(Outcome::connect_engine);
}

proof fn resume_engine_follows(o: Outcome)
    ensures
        o.resume_engine().follows(o, 0),
        o.resume_engine().keeps_plan(o),
{
    reveal(Outcome::resume_engine);
    if let Some(credentials) = o.state.playback.playback_grant {
        connect_engine_follows(o, credentials);
    }
}

proof fn take_engine_for_resume_follows(o: Outcome, live: Live)
    ensures
        o.take_engine_for_resume(live).follows(o, 0),
        o.take_engine_for_resume(live).keeps_plan(o),
{
    reveal(Outcome::take_engine_for_resume);
}

proof fn replace_engine_follows(o: Outcome, live: Live)
    ensures
        o.replace_engine(live).follows(o, 0),
        o.replace_engine(live).keeps_plan(o),
{
    reveal(Outcome::replace_engine);
    let taken = o.take_engine_for_resume(live);
    take_engine_for_resume_follows(o, live);
    resume_engine_follows(taken);
    following_chains(o, taken, taken.resume_engine(), 0, 0);
}

/// No more dropped sessions count than dropped.
proof fn recent_drops_are_drops(drops: Seq<u64>, now_ms: u64)
    ensures
        recent_drops(drops, now_ms).len() <= drops.len(),
    decreases drops.len(),
{
    reveal(recent_drops);
    reveal(Seq::filter);
    if drops.len() > 0 {
        recent_drops_are_drops(drops.drop_last(), now_ms);
    }
}

proof fn reconnect_engine_follows(o: Outcome, live: Live)
    ensures
        o.reconnect_engine(live).follows(o, 0),
        o.reconnect_engine(live).keeps_plan(o),
{
    reveal(Outcome::reconnect_engine);
    let drops = recent_drops(o.state.drops, live.now_ms);
    recent_drops_are_drops(o.state.drops, live.now_ms);
    let kept = o.at(WorkerModel { drops, ..o.state });
    take_engine_for_resume_follows(kept, live);
    following_chains(o, kept, kept.take_engine_for_resume(live), 0, 0);
    let counted = o.at(WorkerModel { drops: drops.push(live.now_ms), ..o.state });
    replace_engine_follows(counted, live);
    if drops.len() < RECONNECT_LIMIT {
        following_chains(o, counted, counted.replace_engine(live), 0, 0);
    }
}

proof fn authorize_playback_follows(o: Outcome)
    ensures
        o.authorize_playback().follows(o, 1),
        o.authorize_playback().keeps_plan(o),
{
    reveal(Outcome::authorize_playback);
}

proof fn on_playback_authorized_follows(
    o: Outcome,
    credentials: Option<Arc<PlaybackCredentials>>,
)
    ensures
        o.on_playback_authorized(credentials).follows(o, 0),
{
    reveal(Outcome::on_playback_authorized);
    if let Some(credentials) = credentials {
        connect_engine_follows(o, credentials);
    }
}

proof fn start_album_type_lookup_follows(o: Outcome)
    ensures
        o.start_album_type_lookup().follows(o, 0),
        o.start_album_type_lookup().keeps_plan(o),
{
    reveal(Outcome::start_album_type_lookup);
}

proof fn start_rootlist_follows(o: Outcome)
    ensures
        o.start_rootlist().follows(o, 0),
        o.start_rootlist().keeps_plan(o),
{
    reveal(Outcome::start_rootlist);
}

proof fn install_engine_follows(o: Outcome, ready: ReadyEngine)
    ensures
        o.install_engine(ready).follows(o, 0),
        o.install_engine(ready).keeps_plan(o),
{
    reveal(Outcome::install_engine);
    let adopted = o.adopt_credentials(ready.credentials);
    assert(adopted.follows(o, 0) && adopted.keeps_plan(o)) by {
        reveal(Outcome::adopt_credentials);
    }
    let resumed = adopted.begin_resume();
    assert(resumed.follows(adopted, 0) && resumed.keeps_plan(adopted)) by {
        reveal(Outcome::begin_resume);
    }
    following_chains(o, adopted, resumed, 0, 0);
    let running = resumed.at(
        WorkerModel {
            playback: EngineState { engine: Some(ready.engine), ..resumed.state.playback },
            ..resumed.state
        },
    );
    let listed = running.start_rootlist();
    let told = listed.at(WorkerModel { drops: Seq::empty(), ..listed.state }).tell(
        Event::Playback(LocalPlayback::Ready { device_id: ready.device_id }),
    );
    start_rootlist_follows(running);
    start_album_type_lookup_follows(told);
    following_chains(o, resumed, running, 0, 0);
    following_chains(o, running, listed, 0, 0);
    following_chains(o, listed, told, 0, 0);
    following_chains(o, told, told.start_album_type_lookup(), 0, 0);
    assert(resumed.run_engine(ready.engine, ready.device_id) == told.start_album_type_lookup())
        by {
        reveal(Outcome::run_engine);
    }
}

proof fn on_engine_connected_follows(
    o: Outcome,
    session_generation: u64,
    engine: Option<ReadyEngine>,
    error: Option<Message>,
)
    ensures
        o.on_engine_connected(session_generation, engine, error).follows(o, 0),
{
    reveal(Outcome::on_engine_connected);
    let free = o.at(
        WorkerModel {
            playback: EngineState { engine_busy: false, ..o.state.playback },
            ..o.state
        },
    );
    let dropped = free.at(
        WorkerModel {
            playback: EngineState { restart_pending: false, ..free.state.playback },
            ..free.state
        },
    ).discard(engine);
    resume_engine_follows(dropped);
    following_chains(o, dropped, dropped.resume_engine(), 0, 0);
    if let Some(ready) = engine {
        install_engine_follows(free, ready);
        following_chains(o, free, free.install_engine(ready), 0, 0);
    }
}

proof fn on_account_checked_follows(o: Outcome, premium: Option<bool>)
    ensures
        o.on_account_checked(premium).follows(o, 0),
{
    reveal(Outcome::on_account_checked);
    let checked = o.at(
        WorkerModel { playback: EngineState { premium, ..o.state.playback }, ..o.state },
    );
    resume_engine_follows(checked);
    following_chains(o, checked, checked.resume_engine(), 0, 0);
    let cleared = checked.at(
        WorkerModel { lookup: checked.state.lookup.clear_engine_work(), ..checked.state },
    );
    drop_engine_follows(cleared);
    following_chains(o, cleared, cleared.drop_engine(), 0, 0);
}

proof fn account_known_follows(o: Outcome, user: User)
    ensures
        o.account_known(user).follows(o, 0),
{
    reveal(Outcome::account_known);
    let named = o.connected(user);
    connected_follows(o, user);
    let told = named.tell(Event::Api(Box::new(ApiResponse::Me(Ok(user)))));
    following_chains(o, named, told, 0, 0);
    on_account_checked_follows(told, user.premium_spec());
    following_chains(o, told, told.on_account_checked(user.premium_spec()), 0, 0);
}

proof fn account_verified_follows(o: Outcome, source: ApiSource, token: StoredToken, user: User)
    ensures
        o.account_verified(source, token, user).follows(o, 0),
{
    reveal(Outcome::account_verified);
    reveal(Outcome::remember_tokens);
    let kept = o.remember_tokens(source);
    match source {
        ApiSource::Shared => {
            account_known_follows(kept, user);
            following_chains(o, kept, kept.account_known(user), 0, 0);
        },
        ApiSource::Personal => {
            let named = kept.tell(Event::WebApp { client_id: Some(token.client_id) });
            account_known_follows(named, user);
            following_chains(o, named, named.account_known(user), 0, 0);
        },
    }
}

proof fn on_web_verified_follows(o: Outcome, source: ApiSource, token: StoredToken, user: User)
    ensures
        o.on_web_verified(source, token, user).follows(o, 1),
{
    reveal(Outcome::on_web_verified);
    let cleared = o.at(o.state.cleared(source));
    let refused = cleared.refuse_account(source);
    assert(refused.follows(o, 0) && refused.keeps_plan(o)) by {
        reveal(Outcome::refuse_account);
    }
    finish_authorization_follows(refused, source);
    following_chains(o, refused, refused.finish_authorization(source), 0, 1);
    let account = AccountId { id: user.id };
    if may_install(o.state.state(other_source(source)), account) {
        let ready = o.at(o.state.with_state(source, SessionState::Ready { account }));
        let known = ready.account_verified(source, token, user);
        account_verified_follows(ready, source, token, user);
        following_chains(o, ready, known, 0, 0);
        finish_authorization_follows(known, source);
        following_chains(o, known, known.finish_authorization(source), 0, 1);
    }
}

proof fn configure_personal_web_app_follows(
    o: Outcome,
    client_id: Option<String>,
    problem: Option<String>,
)
    ensures
        o.configure_personal_web_app(client_id, problem).follows(o, 3),
        o.configure_personal_web_app(client_id, problem).keeps_plan(o),
{
    reveal(Outcome::configure_personal_web_app);
    let in_flight = o.state.sign_in.flow_open;
    let stopped = if in_flight {
        o.act(Effect::CancelFlow).at(o.state.invalidated(o.state.flow_slot()))
    } else {
        o
    };
    let m = stopped.state.invalidated(Slot::Personal);
    let rid = stopped.act(Effect::Revoke { slot: Slot::Personal }).act(
        Effect::DeleteStored { lease: m.lease(Slot::Personal) },
    ).act(Effect::DropTokens { source: ApiSource::Personal }).at(
        WorkerModel {
            sign_in: SignInState {
                personal_tokens: false,
                web_client_id: client_id,
                client_problem: problem,
                ..m.sign_in
            },
            ..m
        }.cleared(ApiSource::Personal),
    ).tell(Event::WebApp { client_id: None });
    assert(rid.follows(o, 2));
    sign_in_source_follows(rid, ApiSource::Personal);
    following_chains(o, rid, rid.sign_in_source(ApiSource::Personal), 2, 1);
}

proof fn verify_resume_follows(o: Outcome, live: Live)
    ensures
        o.verify_resume(live).follows(o, 0),
        o.verify_resume(live).keeps_plan(o),
{
    reveal(Outcome::verify_resume);
}

proof fn fetch_rootlist_follows(o: Outcome)
    ensures
        o.fetch_rootlist().follows(o, 0),
        o.fetch_rootlist().keeps_plan(o),
{
    reveal(Outcome::fetch_rootlist);
    reveal(Outcome::start_rootlist);
}

proof fn album_types_follow(
    o: Outcome,
    uris: Seq<String>,
    request: AlbumTypeRequest,
    result: Result<bool, String>,
)
    ensures
        o.fetch_album_types(uris).follows(o, 0),
        o.fetch_album_types(uris).keeps_plan(o),
        o.on_album_type_resolved(request, result).follows(o, 0),
        o.on_album_type_resolved(request, result).keeps_plan(o),
{
    reveal(Outcome::fetch_album_types);
    reveal(Outcome::on_album_type_resolved);
    reveal(Outcome::start_album_type_lookup);
}

// ---- network settings ---------------------------------------------------------------

proof fn finish_proxy_restore_follows(o: Outcome)
    ensures
        o.finish_proxy_restore().follows(o, 0),
        o.finish_proxy_restore().keeps_plan(o),
        o.finish_proxy_restore().connects_none_since(o),
        !o.finish_proxy_restore().state.network.restoring_proxy,
{
    reveal(Outcome::finish_proxy_restore);
    reveal(Outcome::restore_spotify_grants);
    reveal(Outcome::release_waiting);
}

proof fn change_proxy_follows(
    o: Outcome,
    request: u64,
    config: ProxyConfig,
    built: ProxyBuild,
    sign_in: bool,
    live: Live,
)
    ensures
        o.change_proxy(request, config, built, sign_in, live).follows(o, 2),
        o.change_proxy(request, config, built, sign_in, live).keeps_plan(o),
{
    reveal(Outcome::change_proxy);
    if let Ok(url) = built {
        let restart = text_of(o.state.playback.engine_proxy) != text_of(url);
        let used = o.use_proxy(config);
        assert(used.follows(o, 0) && used.keeps_plan(o)) by {
            reveal(Outcome::use_proxy);
        }
        let replaced = used.replace_if(restart, live);
        assert(replaced.follows(used, 0) && replaced.keeps_plan(used)) by {
            reveal(Outcome::replace_if);
            replace_engine_follows(used, live);
        }
        following_chains(o, used, replaced, 0, 0);
        let told = replaced.at(
            WorkerModel {
                network: NetworkState { proxy_revision: request, ..replaced.state.network },
                ..replaced.state
            },
        ).tell(Event::ProxyApplied { request, config, result: Ok(restart) });
        let stored = told.persist_proxy_password(config);
        assert(stored.follows(told, 1) && stored.keeps_plan(told)) by {
            reveal(Outcome::persist_proxy_password);
        }
        following_chains(o, replaced, told, 0, 0);
        following_chains(o, told, stored, 0, 1);
        let changed = stored.finish_proxy_restore();
        finish_proxy_restore_follows(stored);
        following_chains(o, stored, changed, 1, 0);
        assert(replaced.proxy_changed(request, config, restart) == changed) by {
            reveal(Outcome::proxy_changed);
        }
        let last = changed.sign_in_if(sign_in);
        assert(last.follows(changed, 1) && last.keeps_plan(changed)) by {
            reveal(Outcome::sign_in_if);
            sign_in_source_follows(changed, ApiSource::Shared);
        }
        following_chains(o, changed, last, 1, 1);
    } else {
        assert(o.change_proxy(request, config, built, sign_in, live).follows(o, 0));
    }
}

proof fn proxy_password_protected_follows(o: Outcome, protected: bool)
    ensures
        o.proxy_password_protected(protected).follows(o, 0),
        o.proxy_password_protected(protected).keeps_plan(o),
{
    reveal(Outcome::proxy_password_protected);
    let told = if protected {
        o.tell(Event::ProxyPasswordStored)
    } else {
        o
    };
    finish_proxy_restore_follows(told);
    following_chains(o, told, told.finish_proxy_restore(), 0, 0);
}

proof fn on_proxy_restored_follows(
    o: Outcome,
    lease: Lease,
    result: Result<Loaded, StorageError>,
)
    ensures
        o.on_proxy_restored(lease, result).follows(o, 0),
        o.on_proxy_restored(lease, result).keeps_plan(o),
{
    reveal(Outcome::on_proxy_restored);
    let told = o.proxy_storage_told(result);
    let protected = result is Ok && result->Ok_0.warning is None;
    proxy_password_protected_follows(told, protected);
    following_chains(o, told, told.proxy_password_protected(protected), 0, 0);
}

proof fn restored_proxy_built_follows(
    o: Outcome,
    config: ProxyConfig,
    password: Option<ProxyPassword>,
    protected: bool,
    built: ProxyBuild,
)
    ensures
        o.restored_proxy_built(config, password, protected, built).follows(o, 0),
        o.restored_proxy_built(config, password, protected, built).keeps_plan(o),
{
    reveal(Outcome::restored_proxy_built);
    reveal(Outcome::use_proxy);
    let used = match built {
        Ok(_) => o.use_proxy(config).tell(Event::ProxyRestored { config, password }),
        Err(error) => {
            let invalid = ProxyConfig::Invalid(error);
            o.at(
                WorkerModel {
                    network: NetworkState { network_error: Some(error), ..o.state.network },
                    playback: EngineState {
                        engine_config: EngineConfig {
                            proxy: invalid,
                            ..o.state.playback.engine_config
                        },
                        ..o.state.playback
                    },
                    ..o.state
                },
            ).act(Effect::BlockNetwork(error)).error(Message::Network(error)).tell(
                Event::ProxyRestored { config: invalid, password },
            )
        },
    };
    assert(used.follows(o, 0));
    proxy_password_protected_follows(used, protected);
    following_chains(o, used, used.proxy_password_protected(protected), 0, 0);
}

// ---- stored credentials and answers -------------------------------------------------

proof fn use_grant_follows(o: Outcome, slot: Slot, grant: Option<Grant>)
    ensures
        o.use_grant(slot, grant).follows(o, 0),
        o.use_grant(slot, grant).keeps_plan(o),
{
    reveal(Outcome::use_grant);
    match grant {
        Some(Grant::Playback(credentials)) => {
            let held = o.at(
                WorkerModel {
                    playback: EngineState {
                        playback_grant: Some(credentials),
                        ..o.state.playback
                    },
                    ..o.state
                },
            );
            resume_engine_follows(held);
            following_chains(o, held, held.resume_engine(), 0, 0);
        },
        Some(Grant::Web(token)) => {
            reveal(Outcome::on_web_signed_in);
        },
        _ => {},
    }
}

proof fn on_credentials_restored_follows(
    o: Outcome,
    slot: Slot,
    lease: Lease,
    result: Result<Loaded, StorageError>,
)
    ensures
        o.on_credentials_restored(slot, lease, result).follows(o, 0),
        o.on_credentials_restored(slot, lease, result).keeps_plan(o),
{
    reveal(Outcome::on_credentials_restored);
    let read = o.at(
        WorkerModel {
            sign_in: SignInState {
                restoring: o.state.sign_in.restoring.without(slot),
                ..o.state.sign_in
            },
            ..o.state
        },
    );
    let used = read.use_loaded(slot, result);
    assert(used.follows(read, 0) && used.keeps_plan(read)) by {
        reveal(Outcome::use_loaded);
        if let Ok(loaded) = result {
            let told = match loaded.warning {
                Some(error) => read.error(Message::Storage(error)),
                None => read,
            };
            use_grant_follows(told, slot, loaded.grant);
            following_chains(read, told, told.use_grant(slot, loaded.grant), 0, 0);
        }
    }
    following_chains(o, read, used, 0, 0);
    let cleared = used.clear_without_tokens(slot);
    assert(cleared.follows(used, 0) && cleared.keeps_plan(used)) by {
        reveal(Outcome::clear_without_tokens);
    }
    following_chains(o, used, cleared, 0, 0);
    let last = cleared.tell_if_signed_out();
    assert(last.follows(cleared, 0) && last.keeps_plan(cleared)) by {
        reveal(Outcome::tell_if_signed_out);
    }
    following_chains(o, cleared, last, 0, 0);
}

proof fn api_finished_follows(
    o: Outcome,
    generation: u64,
    response: Box<ApiResponse>,
    expired: Option<ApiSource>,
    shared_lease: Lease,
    personal_lease: Lease,
)
    ensures
        o.api_finished(generation, response, expired, shared_lease, personal_lease).follows(o, 1),
{
    reveal(Outcome::api_finished);
    let rid = match expired {
        Some(ApiSource::Personal) => o.forget_web_grant(ApiSource::Personal).tell(
            Event::WebApp { client_id: None },
        ),
        Some(ApiSource::Shared) => {
            let forgotten = o.forget_web_grant(ApiSource::Shared);
            forgotten.at(
                WorkerModel {
                    sign_in: SignInState { signed_in: false, ..forgotten.state.sign_in },
                    ..forgotten.state
                },
            ).emit(Notice::AuthFailed(Message::SignInExpired))
        },
        None => o,
    };
    assert(rid.follows(o, 1) && rid.connects_none_since(o)) by {
        reveal(Outcome::forget_web_grant);
    }
    let checked = match *response {
        ApiResponse::Me(Ok(user)) => if rid.state.sign_in.signed_in && rid.state.account_name()
            == Some(user.id@) {
            rid.on_account_checked(user.premium_spec())
        } else {
            rid
        },
        _ => rid,
    };
    if let ApiResponse::Me(Ok(user)) = *response {
        on_account_checked_follows(rid, user.premium_spec());
    }
    assert(checked.follows(rid, 0));
    following_chains(o, rid, checked, 1, 0);
    following_chains(o, checked, checked.tell(Event::Api(response)), 1, 0);
}

// ---- one command --------------------------------------------------------------------

proof fn answers_follow(o: Outcome, command: Command)
    ensures
        command matches Command::WebSignedIn { source, token, lease, attempt } ==> o.web_signed_in(
            source,
            token,
            lease,
            attempt,
        ).follows(o, 3),
        command matches Command::WebVerified { source, token, user, lease, attempt }
            ==> o.web_verified(source, token, user, lease, attempt).follows(o, 3),
        command matches Command::WebVerificationFailed { source, lease, attempt, error }
            ==> o.web_verification_failed(source, lease, attempt, error).follows(o, 3),
        command matches Command::EngineConnected { session_generation, engine, error, lease }
            ==> o.engine_connected(session_generation, engine, error, lease).follows(o, 3),
{
    match command {
        Command::WebSignedIn { source, token, lease, attempt } => {
            on_web_signed_in_follows(o, source, token);
            finish_authorization_follows(o, source);
        },
        Command::WebVerified { source, token, user, lease, attempt } => {
            on_web_verified_follows(o, source, token, user);
            finish_authorization_follows(o, source);
        },
        Command::WebVerificationFailed { source, lease, attempt, error } => {
            let told = o.on_web_verification_failed(source, error);
            on_web_verification_failed_follows(o, source, error);
            finish_authorization_follows(told, source);
            finish_authorization_follows(o, source);
            following_chains(o, told, told.finish_authorization(source), 1, 1);
        },
        Command::EngineConnected { session_generation, engine, error, lease } => {
            on_engine_connected_follows(o, session_generation, engine, error);
        },
        _ => {},
    }
}

#[verifier::spinoff_prover]
proof fn obey_follows(o: Outcome, command: Command, live: Live)
    ensures
        o.obey(command, live).follows(o, 3),
{
    reveal(Outcome::obey);
    answers_follow(o, command);
    match command {
        Command::ProxyRestored { lease, result } => {
            on_proxy_restored_follows(o, lease, result);
        },
        Command::CredentialsRestored { slot, lease, result } => {
            on_credentials_restored_follows(o, slot, lease, result);
        },
        Command::SignIn { request, config, built } => {
            change_proxy_follows(o, request, config, built, true, live);
        },
        Command::ApplyProxy { request, config, built } => {
            change_proxy_follows(o, request, config, built, false, live);
        },
        Command::CancelSignIn => {
            cancel_sign_in_follows(o);
        },
        Command::SignOut => {
            sign_out_follows(o);
        },
        Command::AuthorizePlayback => {
            authorize_playback_follows(o);
        },
        Command::RestartEngine(config) => {
            let set = o.at(
                WorkerModel {
                    playback: EngineState {
                        engine_config: EngineConfig {
                            proxy: o.state.playback.engine_config.proxy,
                            ..config
                        },
                        ..o.state.playback
                    },
                    ..o.state
                },
            );
            replace_engine_follows(set, live);
            following_chains(o, set, set.replace_engine(live), 0, 0);
        },
        Command::Api(request) => {
            if let ApiRequest::Search { query, serial } = request {
                search_follows(o, query, serial);
            } else {
                dispatch_follows(o, request);
            }
        },
        Command::ApiFinished { generation, response, expired, shared_lease, personal_lease } => {
            api_finished_follows(o, generation, response, expired, shared_lease, personal_lease);
        },
        Command::Shutdown => {
            drop_engine_follows(o);
            following_chains(o, o.drop_engine(), o.drop_engine().act(Effect::Stop), 0, 0);
        },
        Command::SignInEnded { source, attempt } => {
            sign_in_ended_follows(o, source, attempt);
        },
        Command::PlaybackAuthEnded { attempt } => {
            finish_playback_authorization_follows(o, attempt);
        },
        Command::PlaybackAuthorized { access_token, lease, attempt } => {
            on_playback_authorized_follows(o, bound_credentials(o.state.account(), access_token));
            finish_playback_authorization_follows(o, attempt);
        },
        Command::Reconnect => {
            reconnect_engine_follows(o, live);
        },
        Command::ActivateReceiver(receiver) => {
            reveal(Outcome::activate_receiver);
        },
        Command::Rootlist => {
            fetch_rootlist_follows(o);
        },
        Command::RootlistFinished { generation, result } => {
            reveal(Outcome::on_rootlist_finished);
        },
        Command::VerifyResume => {
            verify_resume_follows(o, live);
        },
        Command::ConfigurePersonalWebApp { client_id, problem } => {
            configure_personal_web_app_follows(o, client_id, problem);
        },
        Command::AlbumTypes(uris) => {
            let any = AlbumTypeRequest {
                uri: arbitrary(),
                session_generation: 0,
                engine_generation: 0,
            };
            album_types_follow(o, uris@, any, Ok(true));
        },
        Command::AlbumTypeResolved { request, result } => {
            album_types_follow(o, Seq::empty(), request, result);
        },
        _ => {},
    }
}

/// A worker starts sound, and no command changes that.
pub proof fn the_worker_stays_sound(
    engine_config: EngineConfig,
    web_client_id: Option<String>,
    client_problem: Option<String>,
    network_error: Option<String>,
    scopes: Seq<String>,
    state: WorkerModel,
    command: Command,
    live: Live,
)
    ensures
        WorkerModel::initial(
            engine_config,
            web_client_id,
            client_problem,
            network_error,
            scopes,
        ).sound(),
        state.sound() ==> Outcome::start(state).step(command, live).state.sound(),
{
    let o = Outcome::start(state);
    obey_follows(o, command, live);
}

/// What was withdrawn before a command does not count after it: a stale lease
/// stays stale, and the attempts and sessions are only ever counted up.
pub proof fn what_was_withdrawn_stays_withdrawn(
    state: WorkerModel,
    command: Command,
    live: Live,
    lease: Lease,
)
    requires
        state.roomy(3),
        lease.epoch < state.credentials.epoch(lease.slot),
    ensures
        ({
            let after = Outcome::start(state).step(command, live).state;
            &&& !after.credentials.holds(lease)
            &&& lease.epoch < after.credentials.epoch(lease.slot)
            &&& state.sign_in.attempt <= after.sign_in.attempt
            &&& state.sign_in.session <= after.sign_in.session
        }),
{
    obey_follows(Outcome::start(state), command, live);
}

/// No engine is connected for an account that is known to be without Premium.
pub proof fn no_engine_without_premium(state: WorkerModel, command: Command, live: Live)
    ensures
        ({
            let after = Outcome::start(state).step(command, live);
            after.state.playback.premium == Some(false) ==> forall|i: int|
                0 <= i < after.effects.len() ==> !(#[trigger] after.effects[i] is ConnectEngine)
        }),
{
    obey_follows(Outcome::start(state), command, live);
}

/// What follows on a command outside keeps the worker sound, too: reading the
/// proxy's password, making its proxy, and starting an engine.
pub proof fn what_follows_keeps_the_worker_sound(
    state: WorkerModel,
    config: ProxyConfig,
    password: Option<ProxyPassword>,
    protected: bool,
    built: ProxyBuild,
    engine_proxy: Option<String>,
)
    requires
        state.sound(),
    ensures
        Outcome::start(state).restored_proxy_built(
            config,
            password,
            protected,
            built,
        ).state.sound(),
        (WorkerModel {
            network: NetworkState { restoring_proxy: true, ..state.network },
            ..state
        }).sound(),
        state.engine_started(engine_proxy).sound(),
{
    restored_proxy_built_follows(Outcome::start(state), config, password, protected, built);
}

/// The proxy that an engine was given is remembered until another one is: no
/// command changes it.
pub proof fn the_engines_proxy_is_remembered(
    state: WorkerModel,
    proxy: Option<String>,
    command: Command,
    live: Live,
)
    ensures
        Outcome::start(state.engine_started(proxy)).step(
            command,
            live,
        ).state.playback.engine_proxy == proxy,
        Outcome::start(state).step(command, live).state.playback.engine_proxy
            == state.playback.engine_proxy,
{
    obey_follows(Outcome::start(state.engine_started(proxy)), command, live);
    obey_follows(Outcome::start(state), command, live);
}

/// New network settings are compared with the proxy that the engine was given
/// when it was connected: where they lead elsewhere, the engine is replaced,
/// and one that is still being connected is not used.
pub proof fn settings_are_compared_with_the_engines_proxy(
    state: WorkerModel,
    proxy: Option<String>,
    request: u64,
    config: ProxyConfig,
    url: Option<String>,
    live: Live,
)
    requires
        state.sign_in.signed_in,
        state.playback.engine_busy,
    ensures
        ({
            let started = Outcome::start(state.engine_started(proxy));
            let changed = started.change_proxy(request, config, Ok(url), false, live);
            let restart = text_of(proxy) != text_of(url);
            &&& changed.effects.len() > 1
            &&& changed.effects[0] == Effect::UseProxy(config)
            &&& changed.effects[1] == Effect::Emit(
                Notice::Event(Event::ProxyApplied { request, config, result: Ok(restart) }),
            )
            &&& changed.state.playback.restart_pending == (restart
                || state.playback.restart_pending)
        }),
{
    reveal(Outcome::change_proxy);
    reveal(Outcome::use_proxy);
    reveal(Outcome::replace_if);
    reveal(Outcome::replace_engine);
    reveal(Outcome::proxy_changed);
    reveal(Outcome::persist_proxy_password);
    reveal(Outcome::finish_proxy_restore);
    reveal(Outcome::restore_spotify_grants);
    reveal(Outcome::release_waiting);
    reveal(Outcome::sign_in_if);
}

/// Once a command has an engine connected, the connection is under way: the
/// proxy that the engine is given can be noted.
pub proof fn a_connection_is_under_way(state: WorkerModel, command: Command, live: Live)
    ensures
        ({
            let after = Outcome::start(state).step(command, live);
            !after.state.playback.engine_busy ==> forall|i: int|
                0 <= i < after.effects.len() ==> !(#[trigger] after.effects[i] is ConnectEngine)
        }),
{
    obey_follows(Outcome::start(state), command, live);
}

// ---- signing out --------------------------------------------------------------------

/// After a sign-out nobody is signed in, nothing plays, nothing is under way
/// and nothing is held; the network settings, the proxy's lease, and the
/// commands that wait for its password are left alone.
pub proof fn signing_out_leaves_nothing(state: WorkerModel)
    ensures
        ({
            let after = Outcome::start(state).sign_out().state;
            &&& !after.sign_in.signed_in
            &&& !after.sign_in.shared_tokens
            &&& !after.sign_in.personal_tokens
            &&& !after.sign_in.restoring.any()
            &&& !after.sign_in.flow_open
            &&& after.sign_in.authorizing is None
            &&& after.sign_in.pending is None
            &&& after.account() is None
            &&& after.playback.engine is None
            &&& after.playback.playback_grant is None
            &&& after.playback.premium is None
            &&& after.playback.resume is None
            &&& after.playback.resume_verify is None
            &&& !after.playback.engine_busy
            &&& !after.playback.rootlist_pending
            &&& after.searches.len() == 0
            &&& after.lookup.outstanding() == 0
            &&& after.playback.engine_config == state.playback.engine_config
            &&& after.network == state.network
            &&& after.waiting == state.waiting
            &&& after.lease(Slot::Proxy) == state.lease(Slot::Proxy)
        }),
{
    reveal(Outcome::sign_out);
    reveal(Outcome::cancel_search);
    reveal(Outcome::drop_engine);
    reveal(Outcome::forget_account);
}

/// Whether a lease was given out at some time up to now.
pub open spec fn given_out(ledger: Ledger, lease: Lease) -> bool {
    lease.epoch <= ledger.epoch(lease.slot)
}

/// Whether a command reports work for the Spotify account that had begun by a
/// given time.
pub open spec fn reports_work(before: WorkerModel, command: Command) -> bool {
    match command {
        Command::CredentialsRestored { slot, lease, .. } => lease.slot == slot && given_out(
            before.credentials,
            lease,
        ),
        Command::WebSignedIn { source, lease, attempt, .. } => lease.slot == slot_of(source)
            && given_out(before.credentials, lease) && attempt <= before.sign_in.attempt,
        Command::WebVerified { source, lease, attempt, .. } => lease.slot == slot_of(source)
            && given_out(before.credentials, lease) && attempt <= before.sign_in.attempt,
        Command::WebVerificationFailed { source, lease, attempt, .. } => lease.slot == slot_of(
            source,
        ) && given_out(before.credentials, lease) && attempt <= before.sign_in.attempt,
        Command::SignInEnded { attempt, .. } => attempt <= before.sign_in.attempt,
        Command::PlaybackAuthEnded { attempt } => attempt <= before.sign_in.attempt,
        Command::PlaybackAuthorized { lease, attempt, .. } => lease.slot == Slot::Playback
            && given_out(before.credentials, lease) && attempt <= before.sign_in.attempt,
        Command::EngineConnected { lease, .. } => lease.slot == Slot::Playback && given_out(
            before.credentials,
            lease,
        ),
        Command::ApiFinished { generation, .. } => generation <= before.sign_in.session,
        Command::RootlistFinished { generation, .. } => generation <= before.sign_in.session,
        Command::AlbumTypeResolved { .. } => true,
        _ => false,
    }
}

/// Work that had begun before a sign-out changes nothing and shows nothing when
/// it ends after it, whatever it brings: a restored or fresh grant, a verified
/// account, an answer, or an engine, which is shut down.
pub proof fn work_from_before_a_sign_out_comes_to_nothing(
    state: WorkerModel,
    command: Command,
    live: Live,
)
    requires
        state.roomy(1),
        reports_work(state, command),
    ensures
        ({
            let out = Outcome::start(state).sign_out();
            let late = out.obey(command, live);
            &&& late.state == out.state
            &&& late.effects == match command {
                Command::EngineConnected { engine: Some(ready), .. } => out.effects.push(
                    Effect::ShutdownEngine(ready.engine),
                ),
                _ => out.effects,
            }
        }),
{
    let out = Outcome::start(state).sign_out();
    signing_out_leaves_nothing(state);
    assert(out.state.credentials == state.credentials.without_spotify() && out.state.sign_in.attempt
        == state.sign_in.attempt + 1 && out.state.sign_in.session == state.sign_in.session + 1) by {
        reveal(Outcome::sign_out);
        reveal(Outcome::cancel_search);
        reveal(Outcome::drop_engine);
        reveal(Outcome::forget_account);
    }
    reveal(Outcome::obey);
    reveal(Outcome::on_credentials_restored);
    reveal(Outcome::finish_playback_authorization);
    reveal(Outcome::sign_in_ended);
    reveal(Outcome::api_finished);
    reveal(Outcome::on_rootlist_finished);
    reveal(Outcome::on_album_type_resolved);
}

/// Work of an earlier sign-in cannot end a later one: an answer of another
/// session, an expiry that a withdrawn grant ran into, and the failure of an
/// earlier attempt leave everything as it is.
pub proof fn old_failures_do_not_end_a_new_session(
    o: Outcome,
    source: ApiSource,
    lease: Lease,
    attempt: u64,
    error: ApiError,
    generation: u64,
    response: Box<ApiResponse>,
    expired: Option<ApiSource>,
    shared_lease: Lease,
    personal_lease: Lease,
)
    ensures
        generation != o.state.sign_in.session ==> o.api_finished(
            generation,
            response,
            expired,
            shared_lease,
            personal_lease,
        ) == o,
        expired == Some(ApiSource::Shared) && !o.state.credentials.holds(shared_lease)
            ==> o.api_finished(generation, response, expired, shared_lease, personal_lease) == o,
        expired == Some(ApiSource::Personal) && !o.state.credentials.holds(personal_lease)
            ==> o.api_finished(generation, response, expired, shared_lease, personal_lease) == o,
        !o.state.credentials.holds(lease) && attempt != o.state.sign_in.attempt
            ==> o.web_verification_failed(source, lease, attempt, error) == o,
{
    reveal(Outcome::api_finished);
}

// ---- signing in ---------------------------------------------------------------------

/// A grant that Spotify no longer accepts is withdrawn, deleted, and not used
/// again; the other application's is left alone.
pub proof fn expired_grants_are_forgotten(o: Outcome, source: ApiSource)
    requires
        o.state.roomy(1),
    ensures
        ({
            let error = ApiError::SignInExpired { api_source: source };
            let slot = slot_of(source);
            let other = other_source(source);
            let after = o.on_web_verification_failed(source, error);
            &&& !after.state.tokens(source)
            &&& after.state.state(source) is Unavailable
            &&& !after.state.credentials.holds(o.state.lease(slot))
            &&& after.effects[o.effects.len() as int] == (Effect::Revoke { slot })
            &&& after.effects[o.effects.len() as int + 1] == (Effect::DeleteStored {
                lease: after.state.lease(slot),
            })
            &&& after.state.tokens(other) == o.state.tokens(other)
            &&& after.state.state(other) == o.state.state(other)
            &&& after.state.lease(slot_of(other)) == o.state.lease(slot_of(other))
        }),
{
    reveal(Outcome::on_web_verification_failed);
    reveal(Outcome::without_grant);
    reveal(Outcome::forget_web_grant);
    reveal(Outcome::sign_in_lost);
}

/// Whatever happened before, a sign-in can begin once none is under way and the
/// network can be used. Its lease is the only one of the application that
/// counts.
pub proof fn a_sign_in_can_begin_again(o: Outcome)
    requires
        o.state.roomy(1),
        o.state.network.network_error is None,
        !o.state.sign_in.flow_open,
    ensures
        ({
            let after = o.sign_in_source(ApiSource::Shared);
            &&& after.state.shared is Authorizing
            &&& after.state.sign_in.authorizing == Some(ApiSource::Shared)
            &&& !after.state.credentials.holds(o.state.lease(Slot::Shared))
            &&& after.effects == o.effects.push(
                Effect::BeginSignIn {
                    source: ApiSource::Shared,
                    client_id: None,
                    lease: after.state.lease(Slot::Shared),
                    attempt: after.state.sign_in.attempt,
                    announce: true,
                },
            )
        }),
{
    reveal(Outcome::sign_in_source);
}

/// A stored grant that lacks permissions is not used, and nothing is withdrawn
/// or deleted for it.
pub proof fn missing_permissions_erase_nothing(o: Outcome, slot: Slot, token: StoredToken)
    requires
        !crate::credentials::covers(token.scope@, o.state.scopes),
    ensures
        o.use_grant(slot, Some(Grant::Web(token))) == o || o.use_grant(
            slot,
            Some(Grant::Web(token)),
        ) == o.error(Message::PermissionsChanged),
        slot == Slot::Shared ==> o.use_grant(slot, Some(Grant::Web(token))) == o.error(
            Message::PermissionsChanged,
        ),
{
    reveal(Outcome::use_grant);
}

/// A grant whose account was found out signs the listener in, and that is told
/// once, however many applications are signed in.
pub proof fn a_verified_account_is_signed_in(
    o: Outcome,
    source: ApiSource,
    token: StoredToken,
    user: User,
)
    requires
        o.state.state(source) is Authorizing,
        may_install(o.state.state(other_source(source)), AccountId { id: user.id }),
        source == ApiSource::Personal ==> text_of(o.state.sign_in.web_client_id) == Some(
            token.client_id@,
        ),
    ensures
        ({
            let after = o.on_web_verified(source, token, user);
            let told = Effect::Emit(
                Notice::Event(
                    Event::Auth(AuthStatus::Connected { username: user.name_spec() }),
                ),
            );
            &&& after.state.sign_in.signed_in
            &&& !o.state.sign_in.signed_in ==> exists|i: int|
                o.effects.len() <= i < after.effects.len() && after.effects[i] == told
            &&& o.state.sign_in.signed_in ==> forall|i: int|
                o.effects.len() <= i < after.effects.len() ==> !(#[trigger] is_connected(
                    after.effects[i],
                ))
        }),
{
    let account = AccountId { id: user.id };
    let ready = o.at(o.state.with_state(source, SessionState::Ready { account }));
    let kept = ready.remember_tokens(source);
    let named = match source {
        ApiSource::Shared => kept,
        ApiSource::Personal => kept.tell(Event::WebApp { client_id: Some(token.client_id) }),
    };
    let known = ready.account_verified(source, token, user);
    let told = named.connected(user);
    reveal(Outcome::on_web_verified);
    reveal(Outcome::remember_tokens);
    reveal(Outcome::account_verified);
    reveal(Outcome::account_known);
    reveal(Outcome::connected);
    reveal(Outcome::on_account_checked);
    reveal(Outcome::resume_engine);
    reveal(Outcome::connect_engine);
    reveal(Outcome::drop_engine);
    reveal(Outcome::finish_authorization);
    reveal(Outcome::start_pending);
    reveal(Outcome::sign_in_source);
    if !o.state.sign_in.signed_in {
        finish_authorization_follows(known, source);
        assert(known.effects[told.effects.len() - 1] == told.effects.last());
        assert(known.finish_authorization(source).effects[told.effects.len() - 1]
            == told.effects.last());
    }
}

/// Whether an effect tells that an account is connected.
pub open spec fn is_connected(effect: Effect) -> bool {
    effect matches Effect::Emit(Notice::Event(Event::Auth(AuthStatus::Connected { .. })))
}

/// A second application cannot be signed in to another account: its session is
/// not opened and the first one's stays.
pub proof fn another_account_is_refused(
    o: Outcome,
    source: ApiSource,
    token: StoredToken,
    user: User,
)
    requires
        o.state.sound(),
        o.state.state(source) is Authorizing,
        o.state.state(other_source(source)) matches SessionState::Ready { account } && account.id@
            != user.id@,
    ensures
        ({
            let after = o.on_web_verified(source, token, user);
            &&& !(after.state.state(source) is Ready)
            &&& after.state.sound()
        }),
{
    on_web_verified_follows(o, source, token, user);
    reveal(Outcome::on_web_verified);
    reveal(Outcome::refuse_account);
    reveal(Outcome::finish_authorization);
    reveal(Outcome::start_pending);
    reveal(Outcome::sign_in_source);
}

// ---- local playback -----------------------------------------------------------------

/// The engine is connected with credentials of the verified account only.
pub proof fn engines_belong_to_the_verified_account(o: Outcome, access_token: String)
    ensures
        ({
            let resumed = o.resume_engine();
            let connected = o.on_playback_authorized(
                bound_credentials(o.state.account(), access_token),
            );
            &&& resumed.effects.len() > o.effects.len() && resumed.effects.last()
                is ConnectEngine ==> text_of(
                resumed.effects.last()->ConnectEngine_credentials.username,
            ) == o.state.account_name()
            &&& connected.effects.len() > o.effects.len() && connected.effects.last()
                is ConnectEngine ==> text_of(
                connected.effects.last()->ConnectEngine_credentials.username,
            ) == o.state.account_name()
        }),
{
    reveal(Outcome::resume_engine);
    reveal(Outcome::on_playback_authorized);
    reveal(Outcome::connect_engine);
}

/// An engine that turns out to be signed in to another account is shut down;
/// nothing of it is kept.
pub proof fn an_engine_of_another_account_is_not_kept(o: Outcome, ready: ReadyEngine)
    requires
        ready.credentials matches Some(grant) && !grant_matches(*grant, o.state.account()),
    ensures
        o.install_engine(ready) == o.act(Effect::ShutdownEngine(ready.engine)).playback_failed(
            Message::AuthorizedForAnother,
        ),
{
    reveal(Outcome::install_engine);
}

/// Settings that change while an engine is being connected wait for it, and
/// that engine is shut down, not used.
pub proof fn an_outdated_engine_is_not_used(
    o: Outcome,
    live: Live,
    session_generation: u64,
    engine: Option<ReadyEngine>,
    error: Option<Message>,
)
    requires
        o.state.sign_in.signed_in,
        o.state.playback.engine_busy,
    ensures
        ({
            let waiting = o.replace_engine(live);
            let done = waiting.on_engine_connected(session_generation, engine, error);
            &&& waiting.effects == o.effects
            &&& waiting.state == (WorkerModel {
                playback: EngineState { restart_pending: true, ..o.state.playback },
                ..o.state
            })
            &&& done.state.playback.engine == o.state.playback.engine
            &&& engine matches Some(ready) ==> done.effects.len() > o.effects.len()
                && done.effects[o.effects.len() as int] == Effect::ShutdownEngine(ready.engine)
        }),
{
    reveal(Outcome::replace_engine);
    reveal(Outcome::on_engine_connected);
    reveal(Outcome::resume_engine);
    reveal(Outcome::connect_engine);
}

/// Dropped sessions are reconnected until six have dropped within ten minutes.
/// Changed settings are not counted.
pub proof fn six_recent_drops_end_the_reconnecting(o: Outcome, live: Live)
    requires
        o.state.sign_in.signed_in,
        !o.state.playback.engine_busy,
    ensures
        ({
            let recent = recent_drops(o.state.drops, live.now_ms);
            let after = o.reconnect_engine(live);
            if recent.len() >= RECONNECT_LIMIT {
                &&& after.state.playback.engine is None
                &&& !after.state.playback.engine_busy
                &&& after.state.playback.resume is None
                &&& after.effects.last() == Effect::Emit(
                    Notice::PlaybackFailed(Message::KeepsDropping),
                )
            } else {
                after.state.drops == recent.push(live.now_ms)
            }
        }),
        o.replace_engine(live).state.drops == o.state.drops,
{
    reveal(Outcome::reconnect_engine);
    reveal(Outcome::replace_engine);
    reveal(Outcome::take_engine_for_resume);
    reveal(Outcome::resume_engine);
    reveal(Outcome::connect_engine);
}

/// Drops count for exactly ten minutes.
pub proof fn drops_count_for_ten_minutes(at: u64, now_ms: u64)
    requires
        at <= now_ms,
    ensures
        still_counts(at, now_ms) <==> now_ms - at < 10 * 60 * 1000,
{
}

/// A playlist tree that was asked for before there was an engine is read once,
/// by the engine that comes.
pub proof fn an_early_playlist_tree_is_read_once(
    o: Outcome,
    engine: Ticket,
    device_id: String,
)
    requires
        o.state.sign_in.signed_in,
        o.state.playback.engine is None,
    ensures
        ({
            let asked = o.fetch_rootlist();
            let running = asked.run_engine(engine, device_id);
            &&& asked.effects == o.effects
            &&& asked.state.playback.rootlist_pending
            &&& running.effects[o.effects.len() as int] == (Effect::ReadRootlist {
                engine,
                generation: o.state.sign_in.session,
            })
            &&& !running.state.playback.rootlist_pending
            &&& running.start_rootlist() == running
        }),
{
    reveal(Outcome::fetch_rootlist);
    reveal(Outcome::start_rootlist);
    reveal(Outcome::run_engine);
    reveal(Outcome::start_album_type_lookup);
}

/// A pickup is tried at most three times, and not once the engine plays.
pub proof fn a_pickup_is_tried_three_times_at_most(o: Outcome, live: Live)
    requires
        o.state.sound(),
    ensures
        ({
            let after = o.verify_resume(live);
            &&& after.effects.len() > o.effects.len() ==> !live.playing && (o.state.playback.resume_verify
                matches Some((point, tries)) && tries < 3 && after.state.playback.resume_verify
                == Some((point, (tries + 1) as u8)))
            &&& after.effects.len() == o.effects.len()
                ==> after.state.playback.resume_verify is None
        }),
{
    reveal(Outcome::verify_resume);
}

// ---- network settings ---------------------------------------------------------------

/// Network settings that make no proxy change nothing but the answer.
pub proof fn rejected_settings_change_nothing(
    o: Outcome,
    request: u64,
    config: ProxyConfig,
    error: String,
    sign_in: bool,
    live: Live,
)
    ensures
        o.change_proxy(request, config, Err(error), sign_in, live) == o.tell(
            Event::ProxyApplied { request, config, result: Err(error) },
        ),
{
    reveal(Outcome::change_proxy);
}

/// New audio settings leave the network settings in use as they are.
pub proof fn audio_settings_keep_the_proxy(o: Outcome, config: EngineConfig, live: Live)
    ensures
        o.obey(Command::RestartEngine(config), live).state.playback.engine_config == (EngineConfig {
            proxy: o.state.playback.engine_config.proxy,
            audio: config.audio,
        }),
{
    reveal(Outcome::obey);
    reveal(Outcome::replace_engine);
    reveal(Outcome::take_engine_for_resume);
    reveal(Outcome::resume_engine);
    reveal(Outcome::connect_engine);
}

/// While the proxy's password is being read, commands wait in order; once it
/// has been, they are handed in again in that order, behind everything else
/// that reading it led to.
pub proof fn waiting_commands_keep_their_order(o: Outcome, command: Command, live: Live)
    requires
        o.state.network.restoring_proxy,
    ensures
        !command.precedes_network() ==> ({
            let after = o.step(command, live);
            &&& after.effects == o.effects
            &&& after.state == (WorkerModel { waiting: o.state.waiting.push(command), ..o.state })
        }),
        ({
            let after = o.finish_proxy_restore();
            let count = o.state.waiting.len();
            &&& after.state.waiting.len() == 0
            &&& !after.state.network.restoring_proxy
            &&& after.effects.len() >= o.effects.len() + count
            &&& forall|i: int|
                0 <= i < count ==> #[trigger] after.effects[after.effects.len() - count + i]
                    == Effect::Requeue(o.state.waiting[i])
        }),
{
    reveal(Outcome::finish_proxy_restore);
    reveal(Outcome::restore_spotify_grants);
    reveal(Outcome::release_waiting);
}

/// Network settings that the listener applies while the stored ones are still
/// being read end the waiting, and stay when the stored ones come.
pub proof fn applied_settings_win_over_stored_ones(
    o: Outcome,
    request: u64,
    config: ProxyConfig,
    url: Option<String>,
    live: Live,
    lease: Lease,
    result: Result<Loaded, StorageError>,
)
    requires
        request != 0,
    ensures
        ({
            let applied = o.change_proxy(request, config, Ok(url), false, live);
            let restored = applied.on_proxy_restored(lease, result);
            &&& !applied.state.network.restoring_proxy
            &&& applied.state.network.network_error is None
            &&& applied.state.playback.engine_config.proxy == config
            &&& restored.state.playback.engine_config == applied.state.playback.engine_config
            &&& restored.state.network == applied.state.network
        }),
{
    reveal(Outcome::change_proxy);
    reveal(Outcome::use_proxy);
    reveal(Outcome::replace_if);
    reveal(Outcome::replace_engine);
    reveal(Outcome::take_engine_for_resume);
    reveal(Outcome::resume_engine);
    reveal(Outcome::connect_engine);
    reveal(Outcome::proxy_changed);
    reveal(Outcome::persist_proxy_password);
    reveal(Outcome::finish_proxy_restore);
    reveal(Outcome::restore_spotify_grants);
    reveal(Outcome::release_waiting);
    reveal(Outcome::sign_in_if);
    reveal(Outcome::on_proxy_restored);
    reveal(Outcome::proxy_password_protected);
}

/// Stored network settings that make no proxy block the network: no sign-in,
/// playback grant or engine begins until the settings are changed.
pub proof fn a_blocked_network_begins_nothing(
    o: Outcome,
    config: ProxyConfig,
    password: Option<ProxyPassword>,
    protected: bool,
    error: String,
    source: ApiSource,
    credentials: Arc<PlaybackCredentials>,
)
    ensures
        ({
            let blocked = o.restored_proxy_built(config, password, protected, Err(error));
            &&& blocked.state.network.network_error == Some(error)
            &&& blocked.state.playback.engine_config.proxy == ProxyConfig::Invalid(error)
            &&& blocked.sign_in_source(source) == blocked.error(Message::Plain(error))
            &&& blocked.authorize_playback() == blocked.error(Message::Plain(error))
            &&& blocked.connect_engine(credentials) == blocked.playback_failed(
                Message::Plain(error),
            )
        }),
{
    reveal(Outcome::restored_proxy_built);
    reveal(Outcome::proxy_password_protected);
    reveal(Outcome::finish_proxy_restore);
    reveal(Outcome::restore_spotify_grants);
    reveal(Outcome::release_waiting);
    reveal(Outcome::sign_in_source);
    reveal(Outcome::authorize_playback);
    reveal(Outcome::connect_engine);
}

// ---- searches and scans -------------------------------------------------------------

/// A new search, an empty one as well, cancels everything that the last one
/// asked for, and nothing else.
pub proof fn a_search_cancels_the_last_one(o: Outcome, query: String, serial: u64)
    requires
        o.state.roomy(2),
    ensures
        ({
            let after = o.search(query, serial);
            let count = o.state.searches.len();
            &&& o.effects.len() + count <= after.effects.len()
            &&& forall|i: int|
                0 <= i < count ==> #[trigger] after.effects[o.effects.len() + i] == (
                Effect::CancelTask { task: o.state.searches[i] })
            &&& forall|i: int|
                0 <= i < after.state.searches.len() ==> #[trigger] after.state.searches[i]
                    >= o.state.tasks.next_task
            &&& query@.len() == 0 ==> after.effects.len() == o.effects.len() + count
                && after.state.searches.len() == 0
            &&& query@.len() > 0 ==> after.state.searches.len() == if o.state.personal is Ready {
                2nat
            } else {
                1nat
            }
        }),
{
    reveal(Outcome::search);
    reveal(Outcome::search_dispatch);
    reveal(Outcome::cancel_search);
    reveal(Outcome::dispatch);
}

/// A new scan for releases cancels the one before it; no other request does.
pub proof fn only_the_newest_scan_goes_on(o: Outcome, request: ApiRequest)
    ensures
        ({
            let after = o.dispatch(request);
            if request is NewReleases {
                &&& after.state.tasks.release_task == Some(o.state.tasks.next_task)
                &&& o.state.tasks.release_task matches Some(task) ==> after.effects.last() == (
                Effect::CancelTask { task })
            } else {
                after.state.tasks.release_task == o.state.tasks.release_task
                    && after.effects.last() is Dispatch
            }
        }),
{
    reveal(Outcome::dispatch);
}

} // verus!
