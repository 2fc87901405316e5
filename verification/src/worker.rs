//! The worker behind the interface: one command at a time, it decides what
//! changes and what is to be done outside.

use std::sync::Arc;

use vstd::prelude::*;

use crate::album_types::{AlbumTypeLookup, AlbumTypeRequest};
use crate::api::{ApiRequest, ApiResponse};
use crate::credentials::{web_slot, Ledger, Lease, Slot, StoredToken};
use crate::error::{ApiError, ApiSource};
use crate::events::{
    playback_credentials, AuthStatus, Command, Effect, EngineConfig, Event, Grant, Loaded,
    LocalPlayback, Message, Notice, PlaybackCredentials, ProxyBuild, ProxyConfig, ProxyPassword,
    ReadyEngine, Receiver, Rootlist, StorageError, Ticket,
};
use crate::exchange::same_account;
use crate::gateway::{AccountId, Gateway, PlaylistAccess, SessionState};
use crate::models::{clone_text, text_of, User};
use crate::text::same_text;
use crate::worker_model::{
    grant_matches, recent_drops, source_of, still_counts, EngineState, Live, NetworkState, Outcome,
    Restoring, SignInState, TaskState, WorkerModel, FIRST_RESUME_CHECK_MS, NEXT_RESUME_CHECK_MS,
    RECONNECT_LIMIT, RECONNECT_WINDOW_MS, RESUME_TRIES,
};

verus! {

/// Forgets the dropped sessions that no longer count, and says whether so many
/// do that another reconnect would only flap. Callers that still reconnect
/// remember the moment themselves.
pub fn session_drops_exhausted(reconnects: &mut Vec<u64>, now_ms: u64) -> (r: bool)
    ensures
        final(reconnects)@ == recent_drops(old(reconnects)@, now_ms),
        r == (final(reconnects)@.len() >= RECONNECT_LIMIT),
{
    let ghost all = reconnects@;
    let ghost keep = |at: u64| still_counts(at, now_ms);
    let mut kept: Vec<u64> = Vec::new();
    let mut i: usize = 0;
    proof {
        reveal(recent_drops);
        reveal(Seq::filter);
        assert(all.take(0) =~= Seq::<u64>::empty());
    }
    while i < reconnects.len()
        invariant
            i <= all.len(),
            reconnects@ == all,
            keep == (|at: u64| still_counts(at, now_ms)),
            kept@ == all.take(i as int).filter(keep),
        decreases reconnects.len() - i,
    {
        let at: u64 = reconnects[i];
        proof {
            reveal(Seq::filter);
            assert(all.take(i + 1).drop_last() =~= all.take(i as int));
            assert(all.take(i + 1).last() == at);
        }
        if now_ms.saturating_sub(at) < RECONNECT_WINDOW_MS {
            kept.push(at);
        }
        i += 1;
    }
    assert(all.take(i as int) =~= all);
    *reconnects = kept;
    reconnects.len() >= RECONNECT_LIMIT
}

/// Remembers that an engine is to be replaced while a connection is being
/// made. Its result is then discarded, and made anew with the newest settings.
pub fn defer_engine_replace(engine_busy: bool, restart_pending: &mut bool) -> (r: bool)
    ensures
        r == engine_busy,
        *final(restart_pending) == (engine_busy || *old(restart_pending)),
{
    if engine_busy {
        *restart_pending = true;
    }
    engine_busy
}

/// Whether credentials are those of an account.
pub fn playback_account_matches(
    credentials: &PlaybackCredentials,
    account: Option<AccountId>,
) -> (r: bool)
    ensures
        r == grant_matches(*credentials, account),
{
    match &credentials.username {
        Some(name) => {
            if name.as_str().is_empty() {
                return false;
            }
            match &account {
                Some(account) => same_account(name.as_str(), Some(account)),
                None => false,
            }
        },
        None => false,
    }
}

fn clone_grant(grant: &Option<Arc<PlaybackCredentials>>) -> (r: Option<Arc<PlaybackCredentials>>)
    ensures
        r == *grant,
{
    match grant {
        Some(grant) => Some(grant.clone()),
        None => None,
    }
}

/// Whether an optional text is the same as another.
fn same_option(a: &Option<String>, b: &Option<String>) -> (r: bool)
    ensures
        r == (text_of(*a) == text_of(*b)),
{
    match (a, b) {
        (Some(a), Some(b)) => same_text(a.as_str(), b.as_str()),
        (None, None) => true,
        _ => false,
    }
}

pub struct Worker {
    pub credentials: Ledger,
    pub sign_in: SignInState,
    pub playback: EngineState,
    pub network: NetworkState,
    pub tasks: TaskState,
    pub api: Gateway,
    /// Commands that wait for the proxy's password.
    pub waiting_for_proxy: Vec<Command>,
    pub search_tasks: Vec<u64>,
    pub album_type_lookup: AlbumTypeLookup,
    /// When the streaming session dropped.
    pub reconnects: Vec<u64>,
    /// The permissions that a Web API grant needs.
    pub scopes: Vec<String>,
}

/// A worker and what it has asked to be done outside.
pub open spec fn outcome(worker: Worker, effects: Seq<Effect>) -> Outcome {
    Outcome { state: worker@, effects }
}

impl Worker {
    pub open spec fn view(&self) -> WorkerModel {
        WorkerModel {
            credentials: self.credentials,
            sign_in: self.sign_in,
            playback: self.playback,
            network: self.network,
            tasks: self.tasks,
            shared: self.api.shared,
            personal: self.api.personal,
            waiting: self.waiting_for_proxy@,
            searches: self.search_tasks@,
            lookup: self.album_type_lookup@,
            drops: self.reconnects@,
            scopes: self.scopes@,
        }
    }

    pub open spec fn wf(&self) -> bool {
        self.api.wf() && self@.wf()
    }

    /// A worker before anything was restored or signed in.
    #[verifier::spinoff_prover]
    pub fn new(
        engine_config: EngineConfig,
        web_client_id: Option<String>,
        client_problem: Option<String>,
        network_error: Option<String>,
        scopes: Vec<String>,
    ) -> (r: Worker)
        ensures
            r.wf(),
            r@ == WorkerModel::initial(
                engine_config,
                web_client_id,
                client_problem,
                network_error,
                scopes@,
            ),
            forall|id: Seq<char>| #[trigger] r.api.access.of(id) == PlaylistAccess::Unknown,
    {
        let r = Worker {
            credentials: Ledger::new(),
            sign_in: SignInState {
                shared_tokens: false,
                personal_tokens: false,
                restoring: Restoring { shared: false, personal: false, playback: false },
                spotify_restore_started: false,
                attempt: 0,
                session: 0,
                web_client_id,
                client_problem,
                signed_in: false,
                flow_open: false,
                authorizing: None,
                pending: None,
            },
            playback: EngineState {
                playback_grant: None,
                engine_config,
                engine_proxy: None,
                engine: None,
                rootlist_pending: false,
                engine_busy: false,
                restart_pending: false,
                premium: None,
                resume: None,
                resume_verify: None,
            },
            network: NetworkState { restoring_proxy: false, proxy_revision: 0, network_error },
            tasks: TaskState { next_task: 0, release_task: None },
            api: Gateway::new(),
            waiting_for_proxy: Vec::new(),
            search_tasks: Vec::new(),
            album_type_lookup: AlbumTypeLookup::default(),
            reconnects: Vec::new(),
            scopes,
        };
        assert(r@.waiting =~= Seq::<Command>::empty());
        assert(r@.searches =~= Seq::<u64>::empty());
        assert(r@.drops =~= Seq::<u64>::empty());
        r
    }

    // ---- searches and requests -------------------------------------------------------

    #[verifier::spinoff_prover]
    fn dispatch(&mut self, request: ApiRequest, out: &mut Vec<Effect>) -> (task: u64)
        requires
            old(self).wf(),
            old(self)@.roomy(1),
        ensures
            final(self).wf(),
            final(self)@.counted(old(self)@, 1),
            final(self).api == old(self).api,
            task == old(self).tasks.next_task,
            outcome(*final(self), final(out)@) == outcome(*old(self), old(out)@).dispatch(request),
    {
        proof {
            reveal(Outcome::dispatch);
        }
        let task: u64 = self.tasks.next_task;
        let scan = match &request {
            ApiRequest::NewReleases { .. } => true,
            _ => false,
        };
        let background = request.background();
        out.push(
            Effect::Dispatch {
                task,
                request,
                generation: self.sign_in.session,
                background,
                engine: self.playback.engine,
                shared_lease: self.credentials.lease(Slot::Shared),
                personal_lease: self.credentials.lease(Slot::Personal),
            },
        );
        self.tasks.next_task = self.tasks.next_task + 1;
        if scan {
            match self.tasks.release_task {
                Some(previous) => {
                    out.push(Effect::CancelTask { task: previous });
                },
                None => {},
            }
            self.tasks.release_task = Some(task);
        }
        task
    }

    #[verifier::spinoff_prover]
    fn cancel_search(&mut self, out: &mut Vec<Effect>)
        requires
            old(self).wf(),
        ensures
            final(self).wf(),
            final(self)@.counted(old(self)@, 0),
            final(self).api == old(self).api,
            outcome(*final(self), final(out)@) == outcome(*old(self), old(out)@).cancel_search(),
    {
        proof {
            reveal(Outcome::cancel_search);
        }
        let ghost cancel = |task: u64| Effect::CancelTask { task };
        let ghost start = out@;
        let mut i: usize = 0;
        while i < self.search_tasks.len()
            invariant
                *self == *old(self),
                i <= self.search_tasks@.len(),
                cancel == (|task: u64| Effect::CancelTask { task }),
                out@ == start + self.search_tasks@.map_values(cancel).take(i as int),
            decreases self.search_tasks.len() - i,
        {
            out.push(Effect::CancelTask { task: self.search_tasks[i] });
            assert(self.search_tasks@.map_values(cancel).take(i + 1)
                =~= self.search_tasks@.map_values(cancel).take(i as int).push(
                cancel(self.search_tasks@[i as int]),
            ));
            i += 1;
        }
        assert(self.search_tasks@.map_values(cancel).take(i as int)
            =~= self.search_tasks@.map_values(cancel));
        self.search_tasks = Vec::new();
        assert(self@.searches =~= Seq::<u64>::empty());
    }

    #[verifier::spinoff_prover]
    fn search_dispatch(&mut self, request: ApiRequest, out: &mut Vec<Effect>)
        requires
            old(self).wf(),
            old(self)@.roomy(1),
        ensures
            final(self).wf(),
            final(self)@.counted(old(self)@, 1),
            final(self).api == old(self).api,
            outcome(*final(self), final(out)@) == outcome(
                *old(self),
                old(out)@,
            ).search_dispatch(request),
    {
        proof {
            reveal(Outcome::search_dispatch);
        }
        let task = self.dispatch(request, out);
        self.search_tasks.push(task);
    }

    #[verifier::spinoff_prover]
    fn search(&mut self, query: String, serial: u64, out: &mut Vec<Effect>)
        requires
            old(self).wf(),
            old(self)@.roomy(2),
        ensures
            final(self).wf(),
            final(self)@.counted(old(self)@, 2),
            final(self).api == old(self).api,
            outcome(*final(self), final(out)@) == outcome(*old(self), old(out)@).search(
                query,
                serial,
            ),
    {
        proof {
            reveal(Outcome::search);
        }
        self.cancel_search(out);
        if query.as_str().is_empty() {
            return;
        }
        let split = self.api.personal_ready();
        emit_event(
            out,
            Event::Api(
                Box::new(ApiResponse::SearchStarted { query: query.clone(), serial, split }),
            ),
        );
        if split {
            self.search_dispatch(
                ApiRequest::SearchPlaylists { query: query.clone(), serial },
                out,
            );
            self.search_dispatch(ApiRequest::SearchCatalogue { query, serial }, out);
        } else {
            self.search_dispatch(ApiRequest::Search { query, serial }, out);
        }
    }

    // ---- signing in ------------------------------------------------------------------

    #[verifier::spinoff_prover]
    fn sign_in_source(&mut self, source: ApiSource, out: &mut Vec<Effect>)
        requires
            old(self).wf(),
            old(self)@.roomy(1),
        ensures
            final(self).wf(),
            final(self)@.counted(old(self)@, 1),
            final(self).api.access == old(self).api.access,
            outcome(*final(self), final(out)@) == outcome(
                *old(self),
                old(out)@,
            ).sign_in_source(source),
    {
        proof {
            reveal(Outcome::sign_in_source);
        }
        match &self.network.network_error {
            Some(error) => {
                emit_error(out, Message::Plain(error.clone()));
                return;
            },
            None => {},
        }
        if self.sign_in.flow_open {
            return;
        }
        let client_id = match source {
            ApiSource::Shared => None,
            ApiSource::Personal => {
                if self.sign_in.web_client_id.is_none() {
                    return;
                }
                match &self.sign_in.client_problem {
                    Some(problem) => {
                        emit_error(out, Message::Plain(problem.clone()));
                        return;
                    },
                    None => {},
                }
                clone_text(&self.sign_in.web_client_id)
            },
        };
        let slot = web_slot(source);
        self.credentials.invalidate(slot);
        self.sign_in.restoring = without(self.sign_in.restoring, slot);
        let lease = self.credentials.lease(slot);
        self.sign_in.attempt = self.sign_in.attempt + 1;
        self.sign_in.flow_open = true;
        self.sign_in.authorizing = Some(source);
        self.api.set_state(source, SessionState::Authorizing);
        out.push(
            Effect::BeginSignIn {
                source,
                client_id,
                lease,
                attempt: self.sign_in.attempt,
                announce: source == ApiSource::Shared,
            },
        );
    }

    #[verifier::spinoff_prover]
    fn start_pending(&mut self, out: &mut Vec<Effect>)
        requires
            old(self).wf(),
            old(self)@.roomy(1),
        ensures
            final(self).wf(),
            final(self)@.counted(old(self)@, 1),
            final(self).api.access == old(self).api.access,
            outcome(*final(self), final(out)@) == outcome(*old(self), old(out)@).start_pending(),
    {
        proof {
            reveal(Outcome::start_pending);
        }
        match self.sign_in.pending {
            Some(source) => {
                self.sign_in.pending = None;
                self.sign_in_source(source, out);
            },
            None => {},
        }
    }

    #[verifier::spinoff_prover]
    fn finish_authorization(&mut self, source: ApiSource, out: &mut Vec<Effect>)
        requires
            old(self).wf(),
            old(self)@.roomy(1),
        ensures
            final(self).wf(),
            final(self)@.counted(old(self)@, 1),
            final(self).api.access == old(self).api.access,
            outcome(*final(self), final(out)@) == outcome(
                *old(self),
                old(out)@,
            ).finish_authorization(source),
    {
        proof {
            reveal(Outcome::finish_authorization);
        }
        match self.sign_in.authorizing {
            Some(current) => {
                if current != source {
                    return;
                }
            },
            None => {
                return;
            },
        }
        self.sign_in.flow_open = false;
        self.sign_in.authorizing = None;
        self.start_pending(out);
    }

    #[verifier::spinoff_prover]
    fn finish_playback_authorization(&mut self, attempt: u64, out: &mut Vec<Effect>)
        requires
            old(self).wf(),
            old(self)@.roomy(1),
        ensures
            final(self).wf(),
            final(self)@.counted(old(self)@, 1),
            final(self).api.access == old(self).api.access,
            outcome(*final(self), final(out)@) == outcome(
                *old(self),
                old(out)@,
            ).finish_playback_authorization(attempt),
    {
        proof {
            reveal(Outcome::finish_playback_authorization);
        }
        if self.sign_in.attempt == attempt {
            self.sign_in.flow_open = false;
            self.start_pending(out);
        }
    }

    #[verifier::spinoff_prover]
    fn sign_in_ended(&mut self, source: ApiSource, attempt: u64, out: &mut Vec<Effect>)
        requires
            old(self).wf(),
            old(self)@.roomy(1),
        ensures
            final(self).wf(),
            final(self)@.counted(old(self)@, 1),
            final(self).api.access == old(self).api.access,
            outcome(*final(self), final(out)@) == outcome(*old(self), old(out)@).sign_in_ended(
                source,
                attempt,
            ),
    {
        proof {
            reveal(Outcome::sign_in_ended);
        }
        let ours = match self.sign_in.authorizing {
            Some(current) => current == source && self.sign_in.attempt == attempt,
            None => false,
        };
        if ours {
            self.sign_in.flow_open = false;
            self.sign_in.authorizing = None;
            if self.api.authorizing(source) {
                self.api.clear(source);
            }
            self.start_pending(out);
        }
    }

    #[verifier::spinoff_prover]
    fn cancel_sign_in(&mut self, out: &mut Vec<Effect>)
        requires
            old(self).wf(),
            old(self)@.roomy(1),
        ensures
            final(self).wf(),
            final(self)@.counted(old(self)@, 1),
            final(self).api.access == old(self).api.access,
            outcome(*final(self), final(out)@) == outcome(*old(self), old(out)@).cancel_sign_in(),
    {
        proof {
            reveal(Outcome::cancel_sign_in);
        }
        self.sign_in.attempt = self.sign_in.attempt + 1;
        self.stop_flow(out);
        self.abandon_authorization(out);
    }

    #[verifier::spinoff_prover]
    fn stop_flow(&mut self, out: &mut Vec<Effect>)
        requires
            old(self).wf(),
            old(self)@.roomy(0),
            old(self)@.credentials.spare(1),
        ensures
            final(self).wf(),
            final(self)@.counted(old(self)@, 1),
            final(self)@.sign_in.attempt == old(self)@.sign_in.attempt,
            final(self).api == old(self).api,
            outcome(*final(self), final(out)@) == outcome(*old(self), old(out)@).stop_flow(),
    {
        proof {
            reveal(Outcome::stop_flow);
        }
        if self.sign_in.flow_open {
            self.sign_in.flow_open = false;
            let slot = self.flow_slot();
            self.credentials.invalidate(slot);
            out.push(Effect::CancelFlow);
        }
    }

    #[verifier::spinoff_prover]
    fn abandon_authorization(&mut self, out: &mut Vec<Effect>)
        requires
            old(self).wf(),
        ensures
            final(self).wf(),
            final(self)@.counted(old(self)@, 0),
            final(self).api.access == old(self).api.access,
            outcome(*final(self), final(out)@) == outcome(
                *old(self),
                old(out)@,
            ).abandon_authorization(),
    {
        proof {
            reveal(Outcome::abandon_authorization);
        }
        let authorizing = self.sign_in.authorizing;
        self.sign_in.authorizing = None;
        self.sign_in.pending = None;
        match authorizing {
            Some(source) => {
                if self.api.authorizing(source) {
                    self.api.clear(source);
                }
            },
            None => {},
        }
    }

    /// The slot of the sign-in that is under way.
    #[verifier::spinoff_prover]
    fn flow_slot(&self) -> (r: Slot)
        ensures
            r == self@.flow_slot(),
    {
        match self.sign_in.authorizing {
            Some(source) => web_slot(source),
            None => Slot::Playback,
        }
    }

    #[verifier::spinoff_prover]
    fn on_web_signed_in(&mut self, source: ApiSource, token: StoredToken, out: &mut Vec<Effect>)
        requires
            old(self).wf(),
        ensures
            final(self).wf(),
            final(self)@.counted(old(self)@, 0),
            final(self).api.access == old(self).api.access,
            outcome(*final(self), final(out)@) == outcome(*old(self), old(out)@).on_web_signed_in(
                source,
                token,
            ),
    {
        proof {
            reveal(Outcome::on_web_signed_in);
        }
        let lease = self.credentials.lease(web_slot(source));
        self.set_tokens(source, true);
        self.api.set_state(source, SessionState::Authorizing);
        out.push(Effect::Verify { source, token, lease, attempt: self.sign_in.attempt });
    }

    #[verifier::spinoff_prover]
    fn set_tokens(&mut self, source: ApiSource, held: bool)
        requires
            old(self).wf(),
        ensures
            final(self).wf(),
            final(self).api == old(self).api,
            final(self)@ == old(self)@.with_tokens(source, held),
    {
        match source {
            ApiSource::Shared => {
                self.sign_in.shared_tokens = held;
            },
            ApiSource::Personal => {
                self.sign_in.personal_tokens = held;
            },
        }
    }

    #[verifier::spinoff_prover]
    fn has_tokens(&self, source: ApiSource) -> (r: bool)
        ensures
            r == self@.tokens(source),
    {
        match source {
            ApiSource::Shared => self.sign_in.shared_tokens,
            ApiSource::Personal => self.sign_in.personal_tokens,
        }
    }

    #[verifier::spinoff_prover]
    fn forget_web_grant(&mut self, source: ApiSource, out: &mut Vec<Effect>)
        requires
            old(self).wf(),
            old(self)@.roomy(1),
        ensures
            final(self).wf(),
            final(self)@.counted(old(self)@, 1),
            final(self)@.sign_in.attempt == old(self)@.sign_in.attempt,
            final(self).api.access == old(self).api.access,
            outcome(*final(self), final(out)@) == outcome(
                *old(self),
                old(out)@,
            ).forget_web_grant(source),
    {
        proof {
            reveal(Outcome::forget_web_grant);
        }
        let slot = web_slot(source);
        self.credentials.invalidate(slot);
        out.push(Effect::Revoke { slot });
        out.push(Effect::DeleteStored { lease: self.credentials.lease(slot) });
        out.push(Effect::DropTokens { source });
        self.set_tokens(source, false);
        self.api.clear(source);
    }

    /// Takes a failed verification. A refresh grant that was refused cannot
    /// restore a session next time, so it, and it alone, is forgotten.
    #[verifier::spinoff_prover]
    pub fn on_web_verification_failed(
        &mut self,
        source: ApiSource,
        error: ApiError,
        out: &mut Vec<Effect>,
    )
        requires
            old(self).wf(),
            old(self)@.roomy(1),
        ensures
            final(self).wf(),
            final(self)@.counted(old(self)@, 1),
            final(self)@.sign_in.attempt == old(self)@.sign_in.attempt,
            final(self).api.access == old(self).api.access,
            outcome(*final(self), final(out)@) == outcome(
                *old(self),
                old(out)@,
            ).on_web_verification_failed(source, error),
    {
        proof {
            reveal(Outcome::on_web_verification_failed);
        }
        let expired = match &error {
            ApiError::SignInExpired { .. } => true,
            _ => false,
        };
        let message = match source {
            ApiSource::Shared => Message::SharedSignIn(error),
            ApiSource::Personal => Message::PersonalSignIn(error),
        };
        self.without_grant(source, expired, out);
        self.sign_in_lost(source, message.clone(), out);
        emit_error(out, message);
    }

    #[verifier::spinoff_prover]
    fn without_grant(&mut self, source: ApiSource, forget: bool, out: &mut Vec<Effect>)
        requires
            old(self).wf(),
            old(self)@.roomy(1),
        ensures
            final(self).wf(),
            final(self)@.counted(old(self)@, 1),
            final(self)@.sign_in.attempt == old(self)@.sign_in.attempt,
            final(self).api.access == old(self).api.access,
            outcome(*final(self), final(out)@) == outcome(*old(self), old(out)@).without_grant(
                source,
                forget,
            ),
    {
        proof {
            reveal(Outcome::without_grant);
        }
        if forget {
            self.forget_web_grant(source, out);
        } else {
            self.api.clear(source);
        }
    }

    #[verifier::spinoff_prover]
    fn sign_in_lost(&mut self, source: ApiSource, message: Message, out: &mut Vec<Effect>)
        requires
            old(self).wf(),
        ensures
            final(self).wf(),
            final(self)@.counted(old(self)@, 0),
            final(self)@.sign_in.attempt == old(self)@.sign_in.attempt,
            final(self).api == old(self).api,
            outcome(*final(self), final(out)@) == outcome(*old(self), old(out)@).sign_in_lost(
                source,
                message,
            ),
    {
        proof {
            reveal(Outcome::sign_in_lost);
        }
        let other_ready = match source {
            ApiSource::Shared => self.api.ready(ApiSource::Personal),
            ApiSource::Personal => self.api.ready(ApiSource::Shared),
        };
        if source == ApiSource::Shared || !other_ready {
            self.sign_in.signed_in = false;
            out.push(Effect::Emit(Notice::AuthFailed(message)));
        }
    }

    #[verifier::spinoff_prover]
    fn connected(&mut self, user: &User, out: &mut Vec<Effect>)
        requires
            old(self).wf(),
        ensures
            final(self).wf(),
            final(self)@.counted(old(self)@, 0),
            final(self).api == old(self).api,
            outcome(*final(self), final(out)@) == outcome(*old(self), old(out)@).connected(*user),
    {
        proof {
            reveal(Outcome::connected);
        }
        if !self.sign_in.signed_in {
            self.sign_in.signed_in = true;
            emit_event(out, Event::Auth(AuthStatus::Connected { username: user.name() }));
        }
    }

    /// Takes the account behind a grant. A grant of another account than the
    /// one that is signed in is not installed.
    #[verifier::spinoff_prover]
    pub fn on_web_verified(
        &mut self,
        source: ApiSource,
        token: StoredToken,
        user: User,
        out: &mut Vec<Effect>,
    )
        requires
            old(self).wf(),
            old(self)@.roomy(1),
        ensures
            final(self).wf(),
            final(self)@.counted(old(self)@, 1),
            final(self).api.access == old(self).api.access,
            outcome(*final(self), final(out)@) == outcome(*old(self), old(out)@).on_web_verified(
                source,
                token,
                user,
            ),
    {
        proof {
            reveal(Outcome::on_web_verified);
        }
        if !self.api.authorizing(source) {
            return;
        }
        if source == ApiSource::Personal {
            match &self.sign_in.web_client_id {
                Some(client_id) => {
                    if !same_text(client_id.as_str(), token.client_id.as_str()) {
                        return;
                    }
                },
                None => {
                    return;
                },
            }
        }
        let installed = self.api.install(source, AccountId { id: user.id.clone() });
        if installed {
            self.account_verified(source, token, user, out);
        } else {
            self.api.clear(source);
            self.refuse_account(source, out);
        }
        self.finish_authorization(source, out);
    }

    #[verifier::spinoff_prover]
    fn refuse_account(&mut self, source: ApiSource, out: &mut Vec<Effect>)
        requires
            old(self).wf(),
        ensures
            final(self).wf(),
            final(self)@.counted(old(self)@, 0),
            final(self).api == old(self).api,
            outcome(*final(self), final(out)@) == outcome(*old(self), old(out)@).refuse_account(
                source,
            ),
    {
        proof {
            reveal(Outcome::refuse_account);
        }
        if source == ApiSource::Shared {
            self.sign_in.signed_in = false;
            out.push(Effect::Emit(Notice::AuthFailed(Message::AnotherAccount)));
        }
        emit_error(out, Message::AnotherAccount);
    }

    #[verifier::spinoff_prover]
    fn remember_tokens(&self, source: ApiSource, out: &mut Vec<Effect>)
        ensures
            outcome(*self, final(out)@) == outcome(*self, old(out)@).remember_tokens(source),
    {
        proof {
            reveal(Outcome::remember_tokens);
        }
        if self.has_tokens(source) {
            out.push(
                Effect::RememberTokens { source, lease: self.credentials.lease(web_slot(source)) },
            );
        }
    }

    #[verifier::spinoff_prover]
    fn account_known(&mut self, user: &User, out: &mut Vec<Effect>)
        requires
            old(self).wf(),
        ensures
            final(self).wf(),
            final(self)@.counted(old(self)@, 0),
            final(self).api == old(self).api,
            outcome(*final(self), final(out)@) == outcome(*old(self), old(out)@).account_known(
                *user,
            ),
    {
        proof {
            reveal(Outcome::account_known);
        }
        self.connected(user, out);
        emit_event(out, Event::Api(Box::new(ApiResponse::Me(Ok(user.clone())))));
        self.on_account_checked(user.premium(), out);
    }

    #[verifier::spinoff_prover]
    fn account_verified(
        &mut self,
        source: ApiSource,
        token: StoredToken,
        user: User,
        out: &mut Vec<Effect>,
    )
        requires
            old(self).wf(),
        ensures
            final(self).wf(),
            final(self)@.counted(old(self)@, 0),
            final(self).api == old(self).api,
            outcome(*final(self), final(out)@) == outcome(*old(self), old(out)@).account_verified(
                source,
                token,
                user,
            ),
    {
        proof {
            reveal(Outcome::account_verified);
        }
        self.remember_tokens(source, out);
        match source {
            ApiSource::Shared => {
                self.account_known(&user, out);
            },
            ApiSource::Personal => {
                emit_event(out, Event::WebApp { client_id: Some(token.client_id) });
                if !self.sign_in.signed_in {
                    self.account_known(&user, out);
                }
            },
        }
    }

    #[verifier::spinoff_prover]
    fn configure_personal_web_app(
        &mut self,
        client_id: Option<String>,
        problem: Option<String>,
        out: &mut Vec<Effect>,
    )
        requires
            old(self).wf(),
            old(self)@.roomy(3),
        ensures
            final(self).wf(),
            final(self)@.counted(old(self)@, 3),
            final(self).api.access == old(self).api.access,
            outcome(*final(self), final(out)@) == outcome(
                *old(self),
                old(out)@,
            ).configure_personal_web_app(client_id, problem),
    {
        proof {
            reveal(Outcome::configure_personal_web_app);
        }
        let in_flight = self.sign_in.flow_open;
        if in_flight {
            out.push(Effect::CancelFlow);
            let slot = self.flow_slot();
            self.credentials.invalidate(slot);
        }
        self.credentials.invalidate(Slot::Personal);
        out.push(Effect::Revoke { slot: Slot::Personal });
        out.push(Effect::DeleteStored { lease: self.credentials.lease(Slot::Personal) });
        out.push(Effect::DropTokens { source: ApiSource::Personal });
        self.sign_in.personal_tokens = false;
        let configured = client_id.is_some();
        self.sign_in.web_client_id = client_id;
        self.sign_in.client_problem = problem;
        self.api.clear(ApiSource::Personal);
        emit_event(out, Event::WebApp { client_id: None });
        if configured {
            if in_flight {
                self.sign_in.pending = Some(ApiSource::Personal);
            } else {
                self.sign_in_source(ApiSource::Personal, out);
            }
        } else {
            self.sign_in.pending = None;
        }
    }

    #[verifier::spinoff_prover]
    fn drop_engine(&mut self, out: &mut Vec<Effect>)
        requires
            old(self).wf(),
        ensures
            final(self).wf(),
            final(self)@.counted(old(self)@, 0),
            final(self).api == old(self).api,
            outcome(*final(self), final(out)@) == outcome(*old(self), old(out)@).drop_engine(),
    {
        proof {
            reveal(Outcome::drop_engine);
        }
        match self.playback.engine {
            Some(engine) => {
                self.playback.engine = None;
                out.push(Effect::ShutdownEngine(engine));
            },
            None => {},
        }
    }

    /// Ends the session: every grant is withdrawn, all work is dropped, and a
    /// late result finds nothing it could belong to.
    #[verifier::spinoff_prover]
    pub fn sign_out(&mut self, out: &mut Vec<Effect>)
        requires
            old(self).wf(),
            old(self)@.roomy(1),
        ensures
            final(self).wf(),
            final(self)@.counted(old(self)@, 1),
            forall|id: Seq<char>| #[trigger]
                final(self).api.access.of(id) == PlaylistAccess::Unknown,
            outcome(*final(self), final(out)@) == outcome(*old(self), old(out)@).sign_out(),
    {
        proof {
            reveal(Outcome::sign_out);
        }
        self.sign_in.spotify_restore_started = true;
        self.cancel_search(out);
        self.sign_in.signed_in = false;
        self.playback.rootlist_pending = false;
        self.sign_in.session = self.sign_in.session + 1;
        self.sign_in.attempt = self.sign_in.attempt + 1;
        self.credentials.revoke_spotify();
        self.sign_in.restoring = Restoring { shared: false, personal: false, playback: false };
        self.sign_in.shared_tokens = false;
        self.sign_in.personal_tokens = false;
        self.playback.playback_grant = None;
        self.playback.engine_busy = false;
        self.playback.premium = None;
        self.playback.resume = None;
        self.playback.resume_verify = None;
        self.album_type_lookup.reset_session();
        out.push(Effect::SessionChanged { generation: self.sign_in.session });
        out.push(Effect::RevokeSpotify);
        out.push(Effect::DropTokens { source: ApiSource::Shared });
        out.push(Effect::DropTokens { source: ApiSource::Personal });
        self.drop_engine(out);
        self.forget_account(out);
    }

    #[verifier::spinoff_prover]
    fn forget_account(&mut self, out: &mut Vec<Effect>)
        requires
            old(self).wf(),
        ensures
            final(self).wf(),
            final(self)@.counted(old(self)@, 0),
            forall|id: Seq<char>| #[trigger]
                final(self).api.access.of(id) == PlaylistAccess::Unknown,
            outcome(*final(self), final(out)@) == outcome(*old(self), old(out)@).forget_account(),
    {
        proof {
            reveal(Outcome::forget_account);
        }
        if self.sign_in.flow_open {
            out.push(Effect::CancelFlow);
        }
        self.sign_in.flow_open = false;
        self.sign_in.authorizing = None;
        self.sign_in.pending = None;
        self.api.clear_all();
        out.push(Effect::DeleteStored { lease: self.credentials.lease(Slot::Shared) });
        out.push(Effect::DeleteStored { lease: self.credentials.lease(Slot::Personal) });
        out.push(Effect::DeleteStored { lease: self.credentials.lease(Slot::Playback) });
        emit_event(out, Event::Playback(LocalPlayback::Unavailable));
        emit_event(out, Event::Auth(AuthStatus::SignedOut));
    }

    // ---- local playback ----------------------------------------------------------------

    #[verifier::spinoff_prover]
    fn connect_engine(&mut self, credentials: Arc<PlaybackCredentials>, out: &mut Vec<Effect>)
        requires
            old(self).wf(),
        ensures
            final(self).wf(),
            final(self)@.counted(old(self)@, 0),
            final(self).api == old(self).api,
            outcome(*final(self), final(out)@) == outcome(
                *old(self),
                old(out)@,
            ).connect_engine(credentials),
    {
        proof {
            reveal(Outcome::connect_engine);
        }
        match &self.network.network_error {
            Some(error) => {
                emit_playback_failed(out, Message::Plain(error.clone()));
                return;
            },
            None => {},
        }
        if self.playback.engine_busy {
            return;
        }
        if let Some(false) = self.playback.premium {
            emit_playback_failed(out, Message::PremiumNeeded);
            return;
        }
        self.sign_in.flow_open = false;
        self.playback.engine_busy = true;
        emit_event(out, Event::Playback(LocalPlayback::Connecting));
        out.push(
            Effect::ConnectEngine {
                credentials,
                config: self.playback.engine_config.clone(),
                lease: self.credentials.lease(Slot::Playback),
                session_generation: self.album_type_lookup.session_generation,
            },
        );
    }

    /// Notes the proxy that the engine that is being connected was given.
    #[verifier::spinoff_prover]
    pub fn engine_started(&mut self, proxy: Option<String>)
        requires
            old(self).wf(),
            old(self)@.playback.engine_busy,
        ensures
            final(self).wf(),
            final(self).api == old(self).api,
            final(self)@ == old(self)@.engine_started(proxy),
    {
        self.playback.engine_proxy = proxy;
    }

    /// Whether a grant names the verified account.
    #[verifier::spinoff_prover]
    fn grant_is_ours(&self, grant: &PlaybackCredentials) -> (r: bool)
        ensures
            r == (text_of(grant.username) == self@.account_name()),
    {
        match (&grant.username, self.api.account()) {
            (Some(name), Some(account)) => same_text(name.as_str(), account.as_str()),
            (None, None) => true,
            _ => false,
        }
    }

    /// Brings the engine up from a stored credential, if there is one for this
    /// account.
    #[verifier::spinoff_prover]
    pub fn resume_engine(&mut self, out: &mut Vec<Effect>)
        requires
            old(self).wf(),
        ensures
            final(self).wf(),
            final(self)@.counted(old(self)@, 0),
            final(self).api == old(self).api,
            outcome(*final(self), final(out)@) == outcome(*old(self), old(out)@).resume_engine(),
    {
        proof {
            reveal(Outcome::resume_engine);
        }
        if !self.sign_in.signed_in || self.playback.engine.is_some() || self.playback.engine_busy {
            return;
        }
        if let Some(false) = self.playback.premium {
            return;
        }
        match clone_grant(&self.playback.playback_grant) {
            None => {},
            Some(credentials) => {
                if !self.grant_is_ours(&credentials) {
                    emit_playback_failed(out, Message::StoredForAnother);
                } else {
                    self.connect_engine(credentials, out);
                }
            },
        }
    }

    #[verifier::spinoff_prover]
    fn take_engine_for_resume(&mut self, live: Live, out: &mut Vec<Effect>)
        requires
            old(self).wf(),
        ensures
            final(self).wf(),
            final(self)@.counted(old(self)@, 0),
            final(self).api == old(self).api,
            outcome(*final(self), final(out)@) == outcome(
                *old(self),
                old(out)@,
            ).take_engine_for_resume(live),
    {
        proof {
            reveal(Outcome::take_engine_for_resume);
        }
        self.playback.resume_verify = None;
        self.album_type_lookup.requeue_active_for_new_engine();
        match self.playback.engine {
            Some(engine) => {
                self.playback.engine = None;
                self.playback.resume = live.resume_point;
                out.push(Effect::ShutdownEngine(engine));
            },
            None => {},
        }
    }

    /// Replaces the engine after a change of settings, which does not count as
    /// a dropped session.
    #[verifier::spinoff_prover]
    fn replace_engine(&mut self, live: Live, out: &mut Vec<Effect>)
        requires
            old(self).wf(),
        ensures
            final(self).wf(),
            final(self)@.counted(old(self)@, 0),
            final(self).api == old(self).api,
            outcome(*final(self), final(out)@) == outcome(*old(self), old(out)@).replace_engine(
                live,
            ),
    {
        proof {
            reveal(Outcome::replace_engine);
        }
        if !self.sign_in.signed_in {
            return;
        }
        if defer_engine_replace(self.playback.engine_busy, &mut self.playback.restart_pending) {
            return;
        }
        self.take_engine_for_resume(live, out);
        self.resume_engine(out);
    }

    /// Reconnects the engine after its session dropped, unless it keeps doing
    /// so. What was playing comes back at the same spot.
    #[verifier::spinoff_prover]
    fn reconnect_engine(&mut self, live: Live, out: &mut Vec<Effect>)
        requires
            old(self).wf(),
        ensures
            final(self).wf(),
            final(self)@.counted(old(self)@, 0),
            final(self).api == old(self).api,
            outcome(*final(self), final(out)@) == outcome(*old(self), old(out)@).reconnect_engine(
                live,
            ),
    {
        proof {
            reveal(Outcome::reconnect_engine);
        }
        if !self.sign_in.signed_in || self.playback.engine_busy {
            return;
        }
        if session_drops_exhausted(&mut self.reconnects, live.now_ms) {
            self.take_engine_for_resume(live, out);
            self.playback.resume = None;
            emit_playback_failed(out, Message::KeepsDropping);
            return;
        }
        self.reconnects.push(live.now_ms);
        self.replace_engine(live, out);
    }

    #[verifier::spinoff_prover]
    fn authorize_playback(&mut self, out: &mut Vec<Effect>)
        requires
            old(self).wf(),
            old(self)@.roomy(1),
        ensures
            final(self).wf(),
            final(self)@.counted(old(self)@, 1),
            final(self).api == old(self).api,
            outcome(*final(self), final(out)@) == outcome(
                *old(self),
                old(out)@,
            ).authorize_playback(),
    {
        proof {
            reveal(Outcome::authorize_playback);
        }
        match &self.network.network_error {
            Some(error) => {
                emit_error(out, Message::Plain(error.clone()));
                return;
            },
            None => {},
        }
        if self.playback.engine_busy || self.sign_in.flow_open {
            return;
        }
        if let Some(false) = self.playback.premium {
            emit_playback_failed(out, Message::PremiumNeeded);
            return;
        }
        self.credentials.invalidate(Slot::Playback);
        self.sign_in.attempt = self.sign_in.attempt + 1;
        self.sign_in.flow_open = true;
        emit_event(out, Event::Playback(LocalPlayback::Authorizing));
        out.push(
            Effect::BeginPlaybackSignIn {
                lease: self.credentials.lease(Slot::Playback),
                attempt: self.sign_in.attempt,
            },
        );
    }

    /// Takes a streaming token. Without a verified account it starts nothing.
    #[verifier::spinoff_prover]
    pub fn on_playback_authorized(&mut self, access_token: String, out: &mut Vec<Effect>)
        requires
            old(self).wf(),
        ensures
            final(self).wf(),
            final(self)@.counted(old(self)@, 0),
            final(self).api == old(self).api,
            outcome(*final(self), final(out)@) == outcome(
                *old(self),
                old(out)@,
            ).on_playback_authorized(
                crate::events::bound_credentials(old(self)@.account(), access_token),
            ),
    {
        proof {
            reveal(Outcome::on_playback_authorized);
        }
        match playback_credentials(self.api.account(), access_token) {
            None => {
                self.playback.engine_busy = false;
                emit_playback_failed(out, Message::FinishSigningIn);
            },
            Some(credentials) => {
                self.connect_engine(credentials, out);
            },
        }
    }

    #[verifier::spinoff_prover]
    fn start_rootlist(&mut self, out: &mut Vec<Effect>)
        requires
            old(self).wf(),
        ensures
            final(self).wf(),
            final(self)@.counted(old(self)@, 0),
            final(self).api == old(self).api,
            outcome(*final(self), final(out)@) == outcome(*old(self), old(out)@).start_rootlist(),
    {
        proof {
            reveal(Outcome::start_rootlist);
        }
        if !self.sign_in.signed_in || !self.playback.rootlist_pending {
            return;
        }
        match self.playback.engine {
            Some(engine) => {
                self.playback.rootlist_pending = false;
                out.push(Effect::ReadRootlist { engine, generation: self.sign_in.session });
            },
            None => {},
        }
    }

    #[verifier::spinoff_prover]
    fn start_album_type_lookup(&mut self, out: &mut Vec<Effect>)
        requires
            old(self).wf(),
        ensures
            final(self).wf(),
            final(self)@.counted(old(self)@, 0),
            final(self).api == old(self).api,
            outcome(*final(self), final(out)@) == outcome(
                *old(self),
                old(out)@,
            ).start_album_type_lookup(),
    {
        proof {
            reveal(Outcome::start_album_type_lookup);
        }
        match self.playback.engine {
            Some(engine) => {
                match self.album_type_lookup.next() {
                    Some(request) => {
                        out.push(Effect::LookUpAlbumType { engine, request });
                    },
                    None => {},
                }
            },
            None => {},
        }
    }

    #[verifier::spinoff_prover]
    fn install_engine(&mut self, ready: ReadyEngine, out: &mut Vec<Effect>)
        requires
            old(self).wf(),
        ensures
            final(self).wf(),
            final(self)@.counted(old(self)@, 0),
            final(self).api == old(self).api,
            outcome(*final(self), final(out)@) == outcome(*old(self), old(out)@).install_engine(
                ready,
            ),
    {
        proof {
            reveal(Outcome::install_engine);
        }
        match &ready.credentials {
            Some(grant) => {
                if !playback_account_matches(grant, self.api.account()) {
                    out.push(Effect::ShutdownEngine(ready.engine));
                    emit_playback_failed(out, Message::AuthorizedForAnother);
                    return;
                }
            },
            None => {},
        }
        self.adopt_credentials(ready.credentials, out);
        self.begin_resume(out);
        self.run_engine(ready.engine, ready.device_id, out);
    }

    #[verifier::spinoff_prover]
    fn adopt_credentials(
        &mut self,
        credentials: Option<Arc<PlaybackCredentials>>,
        out: &mut Vec<Effect>,
    )
        requires
            old(self).wf(),
        ensures
            final(self).wf(),
            final(self)@.counted(old(self)@, 0),
            final(self).api == old(self).api,
            outcome(*final(self), final(out)@) == outcome(*old(self), old(out)@).adopt_credentials(
                credentials,
            ),
    {
        proof {
            reveal(Outcome::adopt_credentials);
        }
        match credentials {
            Some(grant) => {
                self.playback.playback_grant = Some(grant.clone());
                out.push(
                    Effect::StorePlayback { lease: self.credentials.lease(Slot::Playback), grant },
                );
            },
            None => {},
        }
    }

    #[verifier::spinoff_prover]
    fn begin_resume(&mut self, out: &mut Vec<Effect>)
        requires
            old(self).wf(),
        ensures
            final(self).wf(),
            final(self)@.counted(old(self)@, 0),
            final(self).api == old(self).api,
            outcome(*final(self), final(out)@) == outcome(*old(self), old(out)@).begin_resume(),
    {
        proof {
            reveal(Outcome::begin_resume);
        }
        match self.playback.resume {
            Some(point) => {
                self.playback.resume = None;
                self.playback.resume_verify = Some((point, 0));
                out.push(Effect::ScheduleResumeCheck { delay_ms: FIRST_RESUME_CHECK_MS });
            },
            None => {},
        }
    }

    #[verifier::spinoff_prover]
    fn run_engine(&mut self, engine: Ticket, device_id: String, out: &mut Vec<Effect>)
        requires
            old(self).wf(),
        ensures
            final(self).wf(),
            final(self)@.counted(old(self)@, 0),
            final(self).api == old(self).api,
            outcome(*final(self), final(out)@) == outcome(*old(self), old(out)@).run_engine(
                engine,
                device_id,
            ),
    {
        proof {
            reveal(Outcome::run_engine);
        }
        self.playback.engine = Some(engine);
        self.start_rootlist(out);
        self.reconnects = Vec::new();
        assert(self@.drops =~= Seq::<u64>::empty());
        emit_event(out, Event::Playback(LocalPlayback::Ready { device_id }));
        self.start_album_type_lookup(out);
    }

    #[verifier::spinoff_prover]
    fn on_engine_connected(
        &mut self,
        session_generation: u64,
        engine: Option<ReadyEngine>,
        error: Option<Message>,
        out: &mut Vec<Effect>,
    )
        requires
            old(self).wf(),
        ensures
            final(self).wf(),
            final(self)@.counted(old(self)@, 0),
            final(self).api == old(self).api,
            outcome(*final(self), final(out)@) == outcome(
                *old(self),
                old(out)@,
            ).on_engine_connected(session_generation, engine, error),
    {
        proof {
            reveal(Outcome::on_engine_connected);
        }
        if !self.sign_in.signed_in || session_generation != self.album_type_lookup.session_generation {
            discard(engine, out);
            return;
        }
        self.playback.engine_busy = false;
        if self.playback.restart_pending {
            self.playback.restart_pending = false;
            discard(engine, out);
            self.resume_engine(out);
            return;
        }
        match engine {
            Some(ready) => {
                self.install_engine(ready, out);
            },
            None => {
                self.playback.resume = None;
                let message = match error {
                    Some(message) => message,
                    None => Message::PlaybackUnavailable,
                };
                emit_playback_failed(out, message);
            },
        }
    }

    /// Starts the engine unless the account is known to be without Premium,
    /// for which the engine would end the program.
    #[verifier::spinoff_prover]
    fn on_account_checked(&mut self, premium: Option<bool>, out: &mut Vec<Effect>)
        requires
            old(self).wf(),
        ensures
            final(self).wf(),
            final(self)@.counted(old(self)@, 0),
            final(self).api == old(self).api,
            outcome(*final(self), final(out)@) == outcome(
                *old(self),
                old(out)@,
            ).on_account_checked(premium),
    {
        proof {
            reveal(Outcome::on_account_checked);
        }
        self.playback.premium = premium;
        if let Some(false) = premium {
            self.album_type_lookup.clear_engine_work();
            self.drop_engine(out);
            if self.playback.playback_grant.is_some() {
                emit_playback_failed(out, Message::PremiumNeeded);
            }
            return;
        }
        self.resume_engine(out);
    }

    /// Looks whether a pickup has worked, and tries it again a few times: an
    /// engine that has just connected may refuse it.
    #[verifier::spinoff_prover]
    fn verify_resume(&mut self, live: Live, out: &mut Vec<Effect>)
        requires
            old(self).wf(),
        ensures
            final(self).wf(),
            final(self)@.counted(old(self)@, 0),
            final(self).api == old(self).api,
            outcome(*final(self), final(out)@) == outcome(*old(self), old(out)@).verify_resume(
                live,
            ),
    {
        proof {
            reveal(Outcome::verify_resume);
        }
        match self.playback.resume_verify {
            None => {},
            Some((point, tries)) => {
                self.playback.resume_verify = None;
                match self.playback.engine {
                    None => {},
                    Some(engine) => {
                        if live.playing || tries >= RESUME_TRIES {
                            return;
                        }
                        self.playback.resume_verify = Some((point, tries + 1));
                        out.push(Effect::Resume { engine, point });
                        out.push(Effect::ScheduleResumeCheck { delay_ms: NEXT_RESUME_CHECK_MS });
                    },
                }
            },
        }
    }

    /// Asks for the playlist tree, now or once there is an engine to ask.
    #[verifier::spinoff_prover]
    pub fn fetch_rootlist(&mut self, out: &mut Vec<Effect>)
        requires
            old(self).wf(),
        ensures
            final(self).wf(),
            final(self)@.counted(old(self)@, 0),
            final(self).api == old(self).api,
            outcome(*final(self), final(out)@) == outcome(*old(self), old(out)@).fetch_rootlist(),
    {
        proof {
            reveal(Outcome::fetch_rootlist);
        }
        if !self.sign_in.signed_in {
            return;
        }
        self.playback.rootlist_pending = true;
        self.start_rootlist(out);
    }

    /// Remembers albums to look up, and starts with the first.
    #[verifier::spinoff_prover]
    pub fn fetch_album_types(&mut self, uris: Vec<String>, out: &mut Vec<Effect>)
        requires
            old(self).wf(),
        ensures
            final(self).wf(),
            final(self)@.counted(old(self)@, 0),
            final(self).api == old(self).api,
            outcome(*final(self), final(out)@) == outcome(*old(self), old(out)@).fetch_album_types(
                uris@,
            ),
    {
        proof {
            reveal(Outcome::fetch_album_types);
        }
        self.album_type_lookup.enqueue(self.sign_in.signed_in, self.playback.premium, uris);
        self.start_album_type_lookup(out);
    }

    #[verifier::spinoff_prover]
    fn on_album_type_resolved(
        &mut self,
        request: AlbumTypeRequest,
        result: Result<bool, String>,
        out: &mut Vec<Effect>,
    )
        requires
            old(self).wf(),
        ensures
            final(self).wf(),
            final(self)@.counted(old(self)@, 0),
            final(self).api == old(self).api,
            outcome(*final(self), final(out)@) == outcome(
                *old(self),
                old(out)@,
            ).on_album_type_resolved(request, result),
    {
        proof {
            reveal(Outcome::on_album_type_resolved);
        }
        if !self.sign_in.signed_in {
            return;
        }
        if !self.album_type_lookup.finish(&request) {
            return;
        }
        emit_event(out, Event::AlbumType { uri: request.uri, result });
        self.start_album_type_lookup(out);
    }

    #[verifier::spinoff_prover]
    fn activate_receiver(&self, receiver: Receiver, out: &mut Vec<Effect>)
        ensures
            outcome(*self, final(out)@) == outcome(*self, old(out)@).activate_receiver(receiver),
    {
        proof {
            reveal(Outcome::activate_receiver);
        }
        let credentials = match &self.playback.playback_grant {
            Some(grant) => {
                if self.grant_is_ours(grant) {
                    Some(grant.clone())
                } else {
                    None
                }
            },
            None => None,
        };
        out.push(
            Effect::ActivateReceiver {
                receiver,
                credentials,
                lease: self.credentials.lease(Slot::Playback),
            },
        );
    }

    // ---- network settings ----------------------------------------------------------------

    #[verifier::spinoff_prover]
    fn use_proxy(&mut self, config: &ProxyConfig, out: &mut Vec<Effect>)
        requires
            old(self).wf(),
        ensures
            final(self).wf(),
            final(self)@.counted(old(self)@, 0),
            final(self).api == old(self).api,
            outcome(*final(self), final(out)@) == outcome(*old(self), old(out)@).use_proxy(*config),
    {
        proof {
            reveal(Outcome::use_proxy);
        }
        self.network.network_error = None;
        self.playback.engine_config.proxy = config.clone();
        out.push(Effect::UseProxy(config.clone()));
    }

    /// Changes the network settings. Settings that no client can be made for
    /// leave everything as it is.
    #[verifier::spinoff_prover]
    pub fn change_proxy(
        &mut self,
        request: u64,
        config: ProxyConfig,
        built: ProxyBuild,
        sign_in: bool,
        live: Live,
        out: &mut Vec<Effect>,
    )
        requires
            old(self).wf(),
            old(self)@.roomy(2),
        ensures
            final(self).wf(),
            final(self)@.counted(old(self)@, 2),
            final(self).api.access == old(self).api.access,
            outcome(*final(self), final(out)@) == outcome(*old(self), old(out)@).change_proxy(
                request,
                config,
                built,
                sign_in,
                live,
            ),
    {
        proof {
            reveal(Outcome::change_proxy);
        }
        match built {
            Err(error) => {
                emit_event(out, Event::ProxyApplied { request, config, result: Err(error) });
            },
            Ok(url) => {
                let restart = !same_option(&self.playback.engine_proxy, &url);
                self.use_proxy(&config, out);
                self.replace_if(restart, live, out);
                self.proxy_changed(request, config, restart, out);
                self.sign_in_if(sign_in, out);
            },
        }
    }

    #[verifier::spinoff_prover]
    fn replace_if(&mut self, restart: bool, live: Live, out: &mut Vec<Effect>)
        requires
            old(self).wf(),
        ensures
            final(self).wf(),
            final(self)@.counted(old(self)@, 0),
            final(self).api == old(self).api,
            outcome(*final(self), final(out)@) == outcome(*old(self), old(out)@).replace_if(
                restart,
                live,
            ),
    {
        proof {
            reveal(Outcome::replace_if);
        }
        if restart {
            self.replace_engine(live, out);
        }
    }

    #[verifier::spinoff_prover]
    fn sign_in_if(&mut self, sign_in: bool, out: &mut Vec<Effect>)
        requires
            old(self).wf(),
            old(self)@.roomy(1),
        ensures
            final(self).wf(),
            final(self)@.counted(old(self)@, 1),
            final(self).api.access == old(self).api.access,
            outcome(*final(self), final(out)@) == outcome(*old(self), old(out)@).sign_in_if(
                sign_in,
            ),
    {
        proof {
            reveal(Outcome::sign_in_if);
        }
        if sign_in {
            self.sign_in_source(ApiSource::Shared, out);
        }
    }

    #[verifier::spinoff_prover]
    fn proxy_changed(
        &mut self,
        request: u64,
        config: ProxyConfig,
        restart: bool,
        out: &mut Vec<Effect>,
    )
        requires
            old(self).wf(),
            old(self)@.roomy(1),
        ensures
            final(self).wf(),
            final(self)@.counted(old(self)@, 1),
            final(self).api.access == old(self).api.access,
            outcome(*final(self), final(out)@) == outcome(*old(self), old(out)@).proxy_changed(
                request,
                config,
                restart,
            ),
    {
        proof {
            reveal(Outcome::proxy_changed);
        }
        self.network.proxy_revision = request;
        emit_event(
            out,
            Event::ProxyApplied { request, config: config.clone(), result: Ok(restart) },
        );
        self.persist_proxy_password(&config, out);
        self.finish_proxy_restore(out);
    }

    /// Stores the password of a proxy that was entered, or withdraws the
    /// stored one. Other settings keep it for later.
    #[verifier::spinoff_prover]
    fn persist_proxy_password(&mut self, config: &ProxyConfig, out: &mut Vec<Effect>)
        requires
            old(self).wf(),
            old(self)@.roomy(1),
        ensures
            final(self).wf(),
            final(self)@.counted(old(self)@, 1),
            final(self).api == old(self).api,
            outcome(*final(self), final(out)@) == outcome(
                *old(self),
                old(out)@,
            ).persist_proxy_password(*config),
    {
        proof {
            reveal(Outcome::persist_proxy_password);
        }
        let proxy = match config {
            ProxyConfig::Http(proxy) => proxy,
            ProxyConfig::Socks(proxy) => proxy,
            _ => {
                return;
            },
        };
        self.credentials.invalidate(Slot::Proxy);
        let lease = self.credentials.lease(Slot::Proxy);
        match &proxy.password {
            Some(password) => {
                out.push(Effect::SaveProxyPassword { lease, password: password.clone() });
            },
            None => {
                out.push(Effect::RevokeProxyPassword { lease });
            },
        }
    }

    #[verifier::spinoff_prover]
    fn restore_spotify_grants(&mut self, out: &mut Vec<Effect>)
        requires
            old(self).wf(),
        ensures
            final(self).wf(),
            final(self)@.counted(old(self)@, 0),
            final(self).api.access == old(self).api.access,
            outcome(*final(self), final(out)@) == outcome(
                *old(self),
                old(out)@,
            ).restore_spotify_grants(),
    {
        proof {
            reveal(Outcome::restore_spotify_grants);
        }
        if self.sign_in.spotify_restore_started {
            return;
        }
        self.sign_in.spotify_restore_started = true;
        self.sign_in.restoring = Restoring { shared: true, personal: true, playback: true };
        self.api.set_state(ApiSource::Shared, SessionState::Authorizing);
        if self.sign_in.web_client_id.is_some() {
            self.api.set_state(ApiSource::Personal, SessionState::Authorizing);
        }
        out.push(Effect::LoadCredential { lease: self.credentials.lease(Slot::Shared) });
        out.push(Effect::LoadCredential { lease: self.credentials.lease(Slot::Personal) });
        out.push(Effect::LoadCredential { lease: self.credentials.lease(Slot::Playback) });
    }

    #[verifier::spinoff_prover]
    fn finish_proxy_restore(&mut self, out: &mut Vec<Effect>)
        requires
            old(self).wf(),
        ensures
            final(self).wf(),
            final(self)@.counted(old(self)@, 0),
            final(self).api.access == old(self).api.access,
            outcome(*final(self), final(out)@) == outcome(
                *old(self),
                old(out)@,
            ).finish_proxy_restore(),
    {
        proof {
            reveal(Outcome::finish_proxy_restore);
        }
        if !self.network.restoring_proxy {
            return;
        }
        self.network.restoring_proxy = false;
        self.restore_spotify_grants(out);
        self.release_waiting(out);
    }

    #[verifier::spinoff_prover]
    fn release_waiting(&mut self, out: &mut Vec<Effect>)
        requires
            old(self).wf(),
        ensures
            final(self).wf(),
            final(self)@.counted(old(self)@, 0),
            final(self).api == old(self).api,
            outcome(*final(self), final(out)@) == outcome(*old(self), old(out)@).release_waiting(),
    {
        proof {
            reveal(Outcome::release_waiting);
        }
        let mut waiting: Vec<Command> = Vec::new();
        assert(waiting@ =~= Seq::<Command>::empty());
        std::mem::swap(&mut waiting, &mut self.waiting_for_proxy);
        requeue_all(waiting, out);
    }

    #[verifier::spinoff_prover]
    fn on_proxy_restored(
        &mut self,
        lease: Lease,
        result: Result<Loaded, StorageError>,
        out: &mut Vec<Effect>,
    )
        requires
            old(self).wf(),
        ensures
            final(self).wf(),
            final(self)@.counted(old(self)@, 0),
            final(self).api.access == old(self).api.access,
            outcome(*final(self), final(out)@) == outcome(*old(self), old(out)@).on_proxy_restored(
                lease,
                result,
            ),
    {
        proof {
            reveal(Outcome::on_proxy_restored);
        }
        if !self.credentials.current(lease) {
            return;
        }
        let protected: bool;
        let password: Option<ProxyPassword>;
        match result {
            Ok(loaded) => {
                match loaded.warning {
                    Some(error) => {
                        emit_event(out, Event::ProxyStorageFailed(error));
                    },
                    None => {},
                }
                protected = loaded.warning.is_none();
                password = match loaded.grant {
                    Some(Grant::Proxy(password)) => Some(password),
                    _ => None,
                };
            },
            Err(error) => {
                emit_event(out, Event::ProxyStorageFailed(error));
                protected = false;
                password = None;
            },
        }
        if self.network.proxy_revision == 0 {
            let config = match &password {
                Some(password) => self.playback.engine_config.proxy.clone().restore_password(password),
                None => self.playback.engine_config.proxy.clone(),
            };
            out.push(Effect::BuildRestoredProxy { config, password, protected });
        } else {
            self.proxy_password_protected(protected, out);
        }
    }

    #[verifier::spinoff_prover]
    fn proxy_password_protected(&mut self, protected: bool, out: &mut Vec<Effect>)
        requires
            old(self).wf(),
        ensures
            final(self).wf(),
            final(self)@.counted(old(self)@, 0),
            final(self).api.access == old(self).api.access,
            outcome(*final(self), final(out)@) == outcome(
                *old(self),
                old(out)@,
            ).proxy_password_protected(protected),
    {
        proof {
            reveal(Outcome::proxy_password_protected);
        }
        if protected {
            emit_event(out, Event::ProxyPasswordStored);
        }
        self.finish_proxy_restore(out);
    }

    /// Takes what came of making a client for the settings that were read. Of
    /// settings that make none, the reason keeps the network blocked.
    #[verifier::spinoff_prover]
    pub fn restored_proxy_built(
        &mut self,
        config: ProxyConfig,
        password: Option<ProxyPassword>,
        protected: bool,
        built: ProxyBuild,
        out: &mut Vec<Effect>,
    )
        requires
            old(self).wf(),
        ensures
            final(self).wf(),
            final(self)@.counted(old(self)@, 0),
            final(self).api.access == old(self).api.access,
            outcome(*final(self), final(out)@) == outcome(
                *old(self),
                old(out)@,
            ).restored_proxy_built(config, password, protected, built),
    {
        proof {
            reveal(Outcome::restored_proxy_built);
        }
        match built {
            Ok(_) => {
                self.use_proxy(&config, out);
                emit_event(out, Event::ProxyRestored { config, password });
            },
            Err(error) => {
                self.network.network_error = Some(error.clone());
                self.playback.engine_config.proxy = ProxyConfig::Invalid(error.clone());
                out.push(Effect::BlockNetwork(error.clone()));
                emit_error(out, Message::Network(error.clone()));
                emit_event(
                    out,
                    Event::ProxyRestored { config: ProxyConfig::Invalid(error), password },
                );
            },
        }
        self.proxy_password_protected(protected, out);
    }

    /// Starts by reading the proxy's password. Until it is read, most commands
    /// wait.
    #[verifier::spinoff_prover]
    pub fn restore_session(&mut self) -> (lease: Lease)
        requires
            old(self).wf(),
        ensures
            final(self).wf(),
            final(self).api == old(self).api,
            final(self)@ == (WorkerModel {
                network: NetworkState { restoring_proxy: true, ..old(self)@.network },
                ..old(self)@
            }),
            lease == old(self)@.lease(Slot::Proxy),
    {
        self.network.restoring_proxy = true;
        self.credentials.lease(Slot::Proxy)
    }

    // ---- stored credentials ----------------------------------------------------------------

    #[verifier::spinoff_prover]
    fn use_grant(&mut self, slot: Slot, grant: Option<Grant>, out: &mut Vec<Effect>)
        requires
            old(self).wf(),
        ensures
            final(self).wf(),
            final(self)@.counted(old(self)@, 0),
            final(self).api.access == old(self).api.access,
            outcome(*final(self), final(out)@) == outcome(*old(self), old(out)@).use_grant(
                slot,
                grant,
            ),
    {
        proof {
            reveal(Outcome::use_grant);
        }
        match grant {
            Some(Grant::Playback(credentials)) => {
                self.playback.playback_grant = Some(credentials);
                self.resume_engine(out);
            },
            Some(Grant::Web(token)) => {
                let source = source_for(slot);
                let ours = source == ApiSource::Shared || match &self.sign_in.web_client_id {
                    Some(client_id) => same_text(client_id.as_str(), token.client_id.as_str()),
                    None => false,
                };
                if ours {
                    if token.has_scopes(&self.scopes) {
                        if !self.sign_in.signed_in {
                            emit_event(out, Event::Auth(AuthStatus::Connecting));
                        }
                        self.on_web_signed_in(source, token, out);
                    } else {
                        emit_error(out, Message::PermissionsChanged);
                    }
                }
            },
            _ => {},
        }
    }

    /// Takes what was read from the store. A grant without the permissions
    /// that are needed is left in the store and asks for a new sign-in.
    #[verifier::spinoff_prover]
    pub fn on_credentials_restored(
        &mut self,
        slot: Slot,
        lease: Lease,
        result: Result<Loaded, StorageError>,
        out: &mut Vec<Effect>,
    )
        requires
            old(self).wf(),
        ensures
            final(self).wf(),
            final(self)@.counted(old(self)@, 0),
            final(self).api.access == old(self).api.access,
            outcome(*final(self), final(out)@) == outcome(
                *old(self),
                old(out)@,
            ).on_credentials_restored(slot, lease, result),
    {
        proof {
            reveal(Outcome::on_credentials_restored);
        }
        if slot == Slot::Proxy || !self.credentials.current(lease) {
            return;
        }
        self.sign_in.restoring = without(self.sign_in.restoring, slot);
        self.use_loaded(slot, result, out);
        self.clear_without_tokens(slot, out);
        self.tell_if_signed_out(out);
    }

    #[verifier::spinoff_prover]
    fn use_loaded(
        &mut self,
        slot: Slot,
        result: Result<Loaded, StorageError>,
        out: &mut Vec<Effect>,
    )
        requires
            old(self).wf(),
        ensures
            final(self).wf(),
            final(self)@.counted(old(self)@, 0),
            final(self).api.access == old(self).api.access,
            outcome(*final(self), final(out)@) == outcome(*old(self), old(out)@).use_loaded(
                slot,
                result,
            ),
    {
        proof {
            reveal(Outcome::use_loaded);
        }
        match result {
            Ok(loaded) => {
                match loaded.warning {
                    Some(error) => {
                        emit_error(out, Message::Storage(error));
                    },
                    None => {},
                }
                self.use_grant(slot, loaded.grant, out);
            },
            Err(error) => {
                emit_error(out, Message::Storage(error));
            },
        }
    }

    #[verifier::spinoff_prover]
    fn clear_without_tokens(&mut self, slot: Slot, out: &mut Vec<Effect>)
        requires
            old(self).wf(),
        ensures
            final(self).wf(),
            final(self)@.counted(old(self)@, 0),
            final(self).api.access == old(self).api.access,
            outcome(*final(self), final(out)@) == outcome(
                *old(self),
                old(out)@,
            ).clear_without_tokens(slot),
    {
        proof {
            reveal(Outcome::clear_without_tokens);
        }
        if slot != Slot::Playback && !self.has_tokens(source_for(slot)) {
            self.api.clear(source_for(slot));
        }
    }

    #[verifier::spinoff_prover]
    fn tell_if_signed_out(&self, out: &mut Vec<Effect>)
        ensures
            outcome(*self, final(out)@) == outcome(*self, old(out)@).tell_if_signed_out(),
    {
        proof {
            reveal(Outcome::tell_if_signed_out);
        }
        if !self.sign_in.restoring.shared && !self.sign_in.restoring.personal
            && !self.sign_in.restoring.playback && !self.sign_in.signed_in
            && !self.sign_in.shared_tokens && !self.sign_in.personal_tokens {
            emit_event(out, Event::Auth(AuthStatus::SignedOut));
        }
    }

    // ---- answers of the Web API ------------------------------------------------------------

    #[verifier::spinoff_prover]
    fn api_finished(
        &mut self,
        generation: u64,
        response: Box<ApiResponse>,
        expired: Option<ApiSource>,
        shared_lease: Lease,
        personal_lease: Lease,
        out: &mut Vec<Effect>,
    )
        requires
            old(self).wf(),
            old(self)@.roomy(1),
        ensures
            final(self).wf(),
            final(self)@.counted(old(self)@, 1),
            final(self).api.access == old(self).api.access,
            outcome(*final(self), final(out)@) == outcome(*old(self), old(out)@).api_finished(
                generation,
                response,
                expired,
                shared_lease,
                personal_lease,
            ),
    {
        proof {
            reveal(Outcome::api_finished);
        }
        if generation != self.sign_in.session {
            return;
        }
        match expired {
            Some(ApiSource::Shared) => {
                if !self.credentials.current(shared_lease) {
                    return;
                }
                self.forget_web_grant(ApiSource::Shared, out);
                self.sign_in.signed_in = false;
                out.push(Effect::Emit(Notice::AuthFailed(Message::SignInExpired)));
            },
            Some(ApiSource::Personal) => {
                if !self.credentials.current(personal_lease) {
                    return;
                }
                self.forget_web_grant(ApiSource::Personal, out);
                emit_event(out, Event::WebApp { client_id: None });
            },
            None => {},
        }
        match &*response {
            ApiResponse::Me(Ok(user)) => {
                let ours = match self.api.account() {
                    Some(account) => same_text(account.as_str(), user.id.as_str()),
                    None => false,
                };
                if self.sign_in.signed_in && ours {
                    self.on_account_checked(user.premium(), out);
                }
            },
            _ => {},
        }
        emit_event(out, Event::Api(response));
    }

    /// Takes the playlist tree, unless it is an earlier account's.
    #[verifier::spinoff_prover]
    pub fn on_rootlist_finished(
        &self,
        generation: u64,
        result: Result<Rootlist, String>,
        out: &mut Vec<Effect>,
    )
        ensures
            outcome(*self, final(out)@) == outcome(*self, old(out)@).on_rootlist_finished(
                generation,
                result,
            ),
    {
        proof {
            reveal(Outcome::on_rootlist_finished);
        }
        if self.sign_in.signed_in && generation == self.sign_in.session {
            emit_event(out, Event::Rootlist { result });
        }
    }

    // ---- one command -------------------------------------------------------------------------

    /// Takes a command. What it asks to be done outside is to be done in the
    /// order in which it is given.
    #[verifier::spinoff_prover]
    pub fn run(&mut self, command: Command, live: Live) -> (effects: Vec<Effect>)
        requires
            old(self).wf(),
            old(self)@.roomy(3),
        ensures
            final(self).wf(),
            final(self)@.counted(old(self)@, 3),
            outcome(*final(self), effects@) == Outcome::start(old(self)@).step(command, live),
            command is SignOut ==> forall|id: Seq<char>| #[trigger]
                final(self).api.access.of(id) == PlaylistAccess::Unknown,
            !(command is SignOut) ==> final(self).api.access == old(self).api.access,
    {
        let mut out: Vec<Effect> = Vec::new();
        assert(out@ =~= Seq::<Effect>::empty());
        if self.network.restoring_proxy && !command.is_before_network() {
            self.waiting_for_proxy.push(command);
            return out;
        }
        self.obey(command, live, &mut out);
        out
    }

    #[verifier::spinoff_prover]
    #[verifier::rlimit(60)]
    fn obey(&mut self, command: Command, live: Live, out: &mut Vec<Effect>)
        requires
            old(self).wf(),
            old(self)@.roomy(3),
        ensures
            final(self).wf(),
            final(self)@.counted(old(self)@, 3),
            outcome(*final(self), final(out)@) == outcome(*old(self), old(out)@).obey(
                command,
                live,
            ),
            command is SignOut ==> forall|id: Seq<char>| #[trigger]
                final(self).api.access.of(id) == PlaylistAccess::Unknown,
            !(command is SignOut) ==> final(self).api.access == old(self).api.access,
    {
        proof {
            reveal(Outcome::obey);
        }
        match command {
            Command::ProxyRestored { lease, result } => {
                self.on_proxy_restored(lease, result, out);
            },
            Command::CredentialsRestored { slot, lease, result } => {
                self.on_credentials_restored(slot, lease, result, out);
            },
            Command::SignIn { request, config, built } => {
                self.change_proxy(request, config, built, true, live, out);
            },
            Command::ApplyProxy { request, config, built } => {
                self.change_proxy(request, config, built, false, live, out);
            },
            Command::CancelSignIn => {
                self.cancel_sign_in(out);
            },
            Command::SignOut => {
                self.sign_out(out);
            },
            Command::AuthorizePlayback => {
                self.authorize_playback(out);
            },
            Command::RestartEngine(config) => {
                self.playback.engine_config.audio = config.audio;
                self.replace_engine(live, out);
            },
            Command::Player(command) => match self.playback.engine {
                Some(engine) => {
                    out.push(Effect::EngineCommand { engine, command });
                },
                None => {
                    emit_error(out, Message::NoLocalPlayback);
                },
            },
            Command::Api(request) => match request {
                ApiRequest::Search { query, serial } => {
                    self.search(query, serial, out);
                },
                request => {
                    self.dispatch(request, out);
                },
            },
            Command::ApiFinished { generation, response, expired, shared_lease, personal_lease } => {
                self.api_finished(
                    generation,
                    response,
                    expired,
                    shared_lease,
                    personal_lease,
                    out,
                );
            },
            Command::Shutdown => {
                self.drop_engine(out);
                out.push(Effect::Stop);
            },
            Command::WebSignedIn { source, token, lease, attempt } => {
                let ours = match self.sign_in.authorizing {
                    Some(current) => current == source,
                    None => false,
                };
                if self.credentials.current(lease) && ours && self.sign_in.attempt
                    == attempt {
                    self.on_web_signed_in(source, token, out);
                } else if self.sign_in.attempt == attempt {
                    self.finish_authorization(source, out);
                }
            },
            Command::WebVerified { source, token, user, lease, attempt } => {
                if self.credentials.current(lease) {
                    self.on_web_verified(source, token, user, out);
                } else if self.sign_in.attempt == attempt {
                    self.finish_authorization(source, out);
                }
            },
            Command::WebVerificationFailed { source, lease, attempt, error } => {
                if self.credentials.current(lease) {
                    self.on_web_verification_failed(source, error, out);
                }
                if self.sign_in.attempt == attempt {
                    self.finish_authorization(source, out);
                }
            },
            Command::SignInEnded { source, attempt } => {
                self.sign_in_ended(source, attempt, out);
            },
            Command::PlaybackAuthEnded { attempt } => {
                self.finish_playback_authorization(attempt, out);
            },
            Command::PlaybackAuthorized { access_token, lease, attempt } => {
                if self.credentials.current(lease) {
                    self.on_playback_authorized(access_token, out);
                } else {
                    self.finish_playback_authorization(attempt, out);
                }
            },
            Command::EngineConnected { session_generation, engine, error, lease } => {
                if self.credentials.current(lease) && self.sign_in.signed_in {
                    self.on_engine_connected(session_generation, engine, error, out);
                } else {
                    discard(engine, out);
                }
            },
            Command::Reconnect => {
                self.reconnect_engine(live, out);
            },
            Command::ActivateReceiver(receiver) => {
                self.activate_receiver(receiver, out);
            },
            Command::Rootlist => {
                self.fetch_rootlist(out);
            },
            Command::RootlistFinished { generation, result } => {
                self.on_rootlist_finished(generation, result, out);
            },
            Command::VerifyResume => {
                self.verify_resume(live, out);
            },
            Command::ConfigurePersonalWebApp { client_id, problem } => {
                self.configure_personal_web_app(client_id, problem, out);
            },
            Command::LoadPlaylistCache { id, generation } => match self.api.account() {
                Some(account) => {
                    out.push(Effect::ReadPlaylistCache { account, id, generation });
                },
                None => {},
            },
            Command::StorePlaylistCache { id, snapshot, items, total, next_offset } =>
                match self.api.account() {
                Some(account) => {
                    out.push(
                        Effect::WritePlaylistCache {
                            account,
                            id,
                            snapshot,
                            items,
                            total,
                            next_offset,
                        },
                    );
                },
                None => {},
            },
            Command::UserNames(ids) => match self.playback.engine {
                Some(engine) => {
                    out.push(Effect::ReadUserNames { engine, ids });
                },
                None => {},
            },
            Command::LoadLikedSongsCache { generation } => match self.api.account() {
                Some(account) => {
                    out.push(Effect::ReadLikedSongsCache { account, generation });
                },
                None => {},
            },
            Command::StoreLikedSongsCache { account_id, cache } => {
                let ours = match self.api.account() {
                    Some(account) => same_text(account.as_str(), account_id.as_str()),
                    None => false,
                };
                if ours {
                    out.push(Effect::WriteLikedSongsCache { account_id, cache });
                }
            },
            Command::AlbumTypes(uris) => {
                self.fetch_album_types(uris, out);
            },
            Command::AlbumTypeResolved { request, result } => {
                self.on_album_type_resolved(request, result, out);
            },
            command => {
                out.push(Effect::Perform(command));
            },
        }
    }
}

fn emit_event(out: &mut Vec<Effect>, event: Event)
    ensures
        final(out)@ == old(out)@.push(Effect::Emit(Notice::Event(event))),
{
    out.push(Effect::Emit(Notice::Event(event)));
}

fn emit_error(out: &mut Vec<Effect>, message: Message)
    ensures
        final(out)@ == old(out)@.push(Effect::Emit(Notice::Error(message))),
{
    out.push(Effect::Emit(Notice::Error(message)));
}

fn emit_playback_failed(out: &mut Vec<Effect>, message: Message)
    ensures
        final(out)@ == old(out)@.push(Effect::Emit(Notice::PlaybackFailed(message))),
{
    out.push(Effect::Emit(Notice::PlaybackFailed(message)));
}

fn discard(engine: Option<ReadyEngine>, out: &mut Vec<Effect>)
    ensures
        final(out)@ == match engine {
            Some(ready) => old(out)@.push(Effect::ShutdownEngine(ready.engine)),
            None => old(out)@,
        },
{
    match engine {
        Some(ready) => {
            out.push(Effect::ShutdownEngine(ready.engine));
        },
        None => {},
    }
}

fn requeue_all(waiting: Vec<Command>, out: &mut Vec<Effect>)
    ensures
        final(out)@ == old(out)@ + waiting@.map_values(|command: Command| Effect::Requeue(command)),
{
    let ghost all = waiting@;
    let ghost again = |command: Command| Effect::Requeue(command);
    let ghost start = out@;
    let mut rest = waiting;
    let n: usize = rest.len();
    let mut i: usize = 0;
    assert(all.skip(0) =~= all);
    while i < n
        invariant
            n == all.len(),
            i <= n,
            rest@ == all.skip(i as int),
            again == (|command: Command| Effect::Requeue(command)),
            out@ == start + all.map_values(again).take(i as int),
        decreases n - i,
    {
        let command = rest.remove(0);
        assert(all.skip(i as int).remove(0) =~= all.skip(i + 1));
        out.push(Effect::Requeue(command));
        assert(all.map_values(again).take(i + 1) =~= all.map_values(again).take(i as int).push(
            again(command),
        ));
        i += 1;
    }
    assert(all.map_values(again).take(i as int) =~= all.map_values(again));
}

fn without(restoring: Restoring, slot: Slot) -> (r: Restoring)
    ensures
        r == restoring.without(slot),
{
    match slot {
        Slot::Shared => Restoring { shared: false, ..restoring },
        Slot::Personal => Restoring { personal: false, ..restoring },
        Slot::Playback => Restoring { playback: false, ..restoring },
        Slot::Proxy => restoring,
    }
}

fn source_for(slot: Slot) -> (r: ApiSource)
    ensures
        r == source_of(slot),
{
    if slot == Slot::Shared {
        ApiSource::Shared
    } else {
        ApiSource::Personal
    }
}

} // verus!
