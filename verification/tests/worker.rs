use std::sync::Arc;

use spotifast::album_types::MAX_PENDING_ALBUM_TYPES;
use spotifast::api::{ApiRequest, ApiResponse};
use spotifast::credentials::{Slot, StoredToken};
use spotifast::error::{ApiError, ApiSource};
use spotifast::events::{
    friendly_connect_error, playback_credentials, word_connect_error, AuthStatus,
    AuthenticationType, Command, Effect, EngineConfig, Event, Grant, Loaded, LocalPlayback, ManualProxy, Message, Notice,
    PlaybackCredentials, ProxyConfig, ProxyPassword, ReadyEngine, Receiver, Rootlist,
    RootlistEntry, Secret, StorageError, Ticket,
};
use spotifast::gateway::{operation_for, AccountId, Operation, SessionState};
use spotifast::models::User;
use spotifast::releases::ReleaseArtistSource;
use spotifast::worker::{
    defer_engine_replace, playback_account_matches, session_drops_exhausted, Worker,
};
use spotifast::worker_model::{Live, RECONNECT_LIMIT, RECONNECT_WINDOW_MS};

const ALL_SCOPES: [&str; 3] = ["user-library-read", "playlist-read-private", "ugc-image-upload"];

fn worker() -> Worker {
    Worker::new(
        EngineConfig { proxy: ProxyConfig::Off, audio: Ticket { id: 1 } },
        Some("personal".into()),
        None,
        None,
        ALL_SCOPES.iter().map(|scope| scope.to_string()).collect(),
    )
}

fn live() -> Live {
    Live { now_ms: 0, resume_point: None, playing: false }
}

fn token(client_id: &str) -> StoredToken {
    StoredToken {
        client_id: client_id.into(),
        access_token: "dummy-access".into(),
        refresh_token: "dummy-refresh".into(),
        ..StoredToken::default()
    }
}

fn listener(id: &str) -> User {
    User {
        id: id.into(),
        display_name: Some("Listener".into()),
        product: Some("premium".into()),
    }
}

fn grant(username: &str, secret: &str) -> Arc<PlaybackCredentials> {
    Arc::new(PlaybackCredentials {
        username: Some(username.into()),
        auth_type: AuthenticationType::Password,
        auth_data: Secret::Text(secret.into()),
    })
}

fn manual(port: u16) -> ManualProxy {
    ManualProxy { host: "127.0.0.1".into(), port, username: None, password: None }
}

/// What the interface is told.
fn events(effects: Vec<Effect>) -> Vec<Event> {
    let mut told: Vec<Event> = Vec::new();
    for effect in effects {
        if let Effect::Emit(notice) = effect {
            told.push(notice.event());
        }
    }
    told
}

fn verify(worker: &mut Worker, source: ApiSource, account: &str) -> Vec<Event> {
    worker.api.set_state(source, SessionState::Authorizing);
    let client_id = if source == ApiSource::Personal { "personal" } else { "shared" };
    let mut out = Vec::new();
    worker.on_web_verified(source, token(client_id), listener(account), &mut out);
    events(out)
}

fn connected(event: &Event) -> bool {
    matches!(event, Event::Auth(AuthStatus::Connected { .. }))
}

fn playback_failed(event: &Event) -> bool {
    matches!(event, Event::Playback(LocalPlayback::Failed(_)))
}

fn ready_engine(id: u64, credentials: Option<Arc<PlaybackCredentials>>) -> ReadyEngine {
    ReadyEngine { engine: Ticket { id }, credentials, device_id: "device".into() }
}

// ---- network settings ------------------------------------------------------------------

#[test]
fn proxy_changes_compare_with_the_running_engine() {
    let old_url = "http://127.0.0.1:7890/";
    let mut worker = worker();
    worker.playback.engine_config.proxy = ProxyConfig::System;
    worker.playback.engine_proxy = Some(old_url.into());
    worker.sign_in.signed_in = true;
    worker.playback.engine_busy = true;
    let mut out = Vec::new();
    worker.change_proxy(1, ProxyConfig::Off, Ok(None), false, live(), &mut out);
    assert!(
        worker.playback.restart_pending,
        "Off must discard an in-flight connection using the former system proxy"
    );
    assert_eq!(worker.playback.engine_proxy.as_deref(), Some(old_url));
    assert_eq!(worker.playback.engine_config.proxy, ProxyConfig::Off);

    // Every choice is compared with the old connection, even after a previous
    // change has updated the saved policy while reconnecting.
    let mut restarts = |worker: &mut Worker, next: ProxyConfig, url: Option<&str>| {
        let mut out = Vec::new();
        worker.change_proxy(2, next, Ok(url.map(str::to_string)), false, live(), &mut out);
        let told = events(out);
        told.iter().any(|event| matches!(event, Event::ProxyApplied { result: Ok(true), .. }))
    };
    assert!(restarts(&mut worker, ProxyConfig::System, None));
    assert!(restarts(&mut worker, ProxyConfig::Socks(manual(7890)), None));
    assert!(restarts(&mut worker, ProxyConfig::Http(manual(7891)), Some("http://127.0.0.1:7891/")));
    assert!(!restarts(&mut worker, ProxyConfig::Http(manual(7890)), Some(old_url)));
    worker.playback.engine_proxy = None;
    assert!(!restarts(&mut worker, ProxyConfig::Off, None));
    assert!(!restarts(&mut worker, ProxyConfig::System, None));
    assert!(!restarts(&mut worker, ProxyConfig::Socks(manual(7890)), None));
    assert!(restarts(&mut worker, ProxyConfig::Http(manual(7890)), Some(old_url)));
}

#[test]
fn proxy_restoration_defers_work_without_blocking_shutdown() {
    let mut worker = worker();
    worker.network.restoring_proxy = true;
    let audio = EngineConfig { proxy: ProxyConfig::System, audio: Ticket { id: 1 } };
    assert!(worker.run(Command::RestartEngine(audio), live()).is_empty());
    assert_eq!(worker.run(Command::Shutdown, live()), vec![Effect::Stop]);
    assert_eq!(worker.waiting_for_proxy.len(), 1);
    assert_eq!(worker.playback.engine_config.proxy, ProxyConfig::Off);
}

#[test]
fn an_invalid_saved_proxy_keeps_restored_network_work_blocked() {
    let mut worker = worker();
    let reason = "Proxy port must be a number";
    let invalid = ProxyConfig::Invalid(reason.into());
    worker.playback.engine_config.proxy = invalid.clone();
    let lease = worker.restore_session();
    let loaded = Loaded { grant: None, warning: None };
    let effects = worker.run(Command::ProxyRestored { lease, result: Ok(loaded) }, live());
    let mut out = Vec::new();
    for effect in effects {
        match effect {
            Effect::BuildRestoredProxy { config, password, protected } => {
                assert_eq!(config, invalid);
                worker.restored_proxy_built(
                    config,
                    password,
                    protected,
                    Err(reason.into()),
                    &mut out,
                );
            }
            other => out.push(other),
        }
    }
    assert_eq!(worker.network.network_error.as_deref(), Some(reason));
    assert!(!worker.network.restoring_proxy);
    let told = events(out);
    assert!(told
        .iter()
        .any(|event| matches!(event, Event::ProxyRestored { config, .. } if *config == invalid)));
    assert!(told.contains(&Event::Error(
        "Network configuration failed: Proxy port must be a number".into()
    )));
}

#[test]
fn explicit_proxy_apply_can_complete_before_native_restoration() {
    let mut worker = worker();
    let old = worker.restore_session();
    let mut out = Vec::new();
    worker.change_proxy(1, ProxyConfig::System, Ok(None), false, live(), &mut out);
    assert!(!worker.network.restoring_proxy);
    assert!(worker.network.network_error.is_none());
    let loaded = Loaded { grant: None, warning: None };
    out.extend(worker.run(Command::ProxyRestored { lease: old, result: Ok(loaded) }, live()));
    assert_eq!(worker.playback.engine_config.proxy, ProxyConfig::System);
    assert!(events(out).iter().all(|event| !matches!(event, Event::ProxyRestored { .. })));
}

#[test]
fn audio_settings_cannot_revert_a_proxy_waiting_for_its_ui_acknowledgement() {
    let mut worker = worker();
    let old_audio = worker.playback.engine_config.clone();
    let proxy = ProxyConfig::Http(manual(8080));
    worker.run(
        Command::ApplyProxy {
            request: 1,
            config: proxy.clone(),
            built: Ok(Some("http://127.0.0.1:8080/".into())),
        },
        live(),
    );
    worker.run(Command::RestartEngine(old_audio), live());
    worker.run(Command::Shutdown, live());
    assert_eq!(worker.playback.engine_config.proxy, proxy);
}

#[test]
fn a_rejected_proxy_change_does_not_replace_the_live_configuration() {
    let mut worker = worker();
    let original = worker.playback.engine_config.proxy.clone();
    let bad = ProxyConfig::Invalid("Proxy port must be a number".into());
    let mut out = Vec::new();
    worker.change_proxy(
        1,
        bad.clone(),
        Err("Proxy port must be a number".into()),
        false,
        live(),
        &mut out,
    );
    assert_eq!(worker.playback.engine_config.proxy, original);
    assert!(!worker.playback.restart_pending);
    assert!(worker.network.network_error.is_none());
    let answers = events(out);
    assert_eq!(answers.len(), 1);
    assert!(
        matches!(&answers[0], Event::ProxyApplied { config, result: Err(_), .. } if config == &bad)
    );
}

#[test]
fn waiting_commands_are_handed_in_again_in_order() {
    let mut worker = worker();
    let lease = worker.restore_session();
    worker.run(Command::AuthorizePlayback, live());
    worker.run(Command::Rootlist, live());
    let loaded = Loaded { grant: None, warning: None };
    let effects = worker.run(Command::ProxyRestored { lease, result: Ok(loaded) }, live());
    assert!(matches!(
        effects[0],
        Effect::BuildRestoredProxy { protected: true, password: None, .. }
    ));
    let mut out = Vec::new();
    worker.restored_proxy_built(ProxyConfig::Off, None, true, Ok(None), &mut out);
    let last = out.split_off(out.len() - 2);
    assert_eq!(
        last,
        vec![
            Effect::Requeue(Command::AuthorizePlayback),
            Effect::Requeue(Command::Rootlist),
        ]
    );
    assert!(worker.waiting_for_proxy.is_empty());
    assert!(worker.sign_in.restoring.shared);
    assert_eq!(*worker.api.state(ApiSource::Shared), SessionState::Authorizing);
}

#[test]
fn the_password_of_a_manual_proxy_is_stored_or_withdrawn() {
    let mut worker = worker();
    let password = ProxyPassword { secret: "dummy".into() };
    let with = ProxyConfig::Http(ManualProxy { password: Some(password.clone()), ..manual(1) });
    let before = worker.credentials.lease(Slot::Proxy);
    let mut out = Vec::new();
    worker.change_proxy(1, with, Ok(None), false, live(), &mut out);
    let lease = worker.credentials.lease(Slot::Proxy);
    assert_ne!(before, lease);
    assert!(out.contains(&Effect::SaveProxyPassword { lease, password }));
    let mut out = Vec::new();
    worker.change_proxy(2, ProxyConfig::Http(manual(1)), Ok(None), false, live(), &mut out);
    let lease = worker.credentials.lease(Slot::Proxy);
    assert!(out.contains(&Effect::RevokeProxyPassword { lease }));
    // Switching the proxy off keeps the password for later.
    let mut out = Vec::new();
    worker.change_proxy(3, ProxyConfig::Off, Ok(None), false, live(), &mut out);
    assert_eq!(worker.credentials.lease(Slot::Proxy), lease);
}

// ---- signing in and out -----------------------------------------------------------------

#[test]
fn expired_grants_are_forgotten_and_a_new_sign_in_completes_without_restart() {
    let mut worker = worker();
    verify(&mut worker, ApiSource::Shared, "alice");
    let old = worker.credentials.lease(Slot::Shared);
    let mut out = Vec::new();
    worker.on_web_verification_failed(
        ApiSource::Shared,
        ApiError::SignInExpired { api_source: ApiSource::Shared },
        &mut out,
    );
    assert!(!worker.credentials.current(old));
    assert!(!worker.sign_in.signed_in);
    assert!(out.contains(&Effect::DeleteStored {
        lease: worker.credentials.lease(Slot::Shared)
    }));
    let told = verify(&mut worker, ApiSource::Shared, "alice");
    assert!(worker.sign_in.signed_in);
    assert!(told.iter().any(connected));
}

#[test]
fn old_api_and_verification_errors_cannot_sign_out_a_new_session() {
    let mut worker = worker();
    verify(&mut worker, ApiSource::Shared, "alice");
    let generation = worker.sign_in.session;
    let shared = worker.credentials.lease(Slot::Shared);
    let personal = worker.credentials.lease(Slot::Personal);
    let mut out = Vec::new();
    worker.sign_out(&mut out);
    verify(&mut worker, ApiSource::Shared, "bob");
    let expired = || ApiError::SignInExpired { api_source: ApiSource::Shared };
    let mut effects = worker.run(
        Command::ApiFinished {
            generation,
            response: Box::new(ApiResponse::Me(Err(expired()))),
            expired: Some(ApiSource::Shared),
            shared_lease: shared,
            personal_lease: personal,
        },
        live(),
    );
    effects.extend(worker.run(
        Command::WebVerificationFailed {
            source: ApiSource::Shared,
            lease: shared,
            attempt: 0,
            error: expired(),
        },
        live(),
    ));
    effects.extend(worker.run(Command::Shutdown, live()));
    assert!(worker.sign_in.signed_in);
    assert_eq!(worker.api.account(), Some(AccountId::new("bob")));
    assert!(events(effects).is_empty());
}

#[test]
fn old_protected_web_grants_wait_for_cover_consent_without_erasing_credentials() {
    for slot in [Slot::Shared, Slot::Personal] {
        let mut worker = worker();
        let lease = worker.credentials.lease(slot);
        let old = StoredToken {
            expires_at: u64::MAX,
            scope: ALL_SCOPES
                .iter()
                .filter(|scope| **scope != "ugc-image-upload")
                .copied()
                .collect::<Vec<_>>()
                .join(" "),
            ..token(if slot == Slot::Shared { "shared" } else { "personal" })
        };
        if slot == Slot::Shared {
            worker.sign_in.restoring.shared = true;
        } else {
            worker.sign_in.restoring.personal = true;
        }
        let mut out = Vec::new();
        let loaded = Loaded { grant: Some(Grant::Web(old)), warning: None };
        worker.on_credentials_restored(slot, lease, Ok(loaded), &mut out);
        assert!(!worker.sign_in.restoring.shared && !worker.sign_in.restoring.personal);
        assert!(!worker.sign_in.shared_tokens && !worker.sign_in.personal_tokens);
        assert!(!worker.sign_in.signed_in);
        assert!(out.iter().all(|effect| !matches!(
            effect,
            Effect::DeleteStored { .. } | Effect::Revoke { .. } | Effect::RevokeSpotify
        )));
        let emitted = events(out);
        assert!(emitted.iter().any(|event| matches!(event,
            Event::Error(message) if message.contains("permissions changed"))));
        assert!(emitted
            .iter()
            .any(|event| matches!(event, Event::Auth(AuthStatus::SignedOut))));
        assert!(worker.credentials.current(lease));
    }
}

#[test]
fn signout_rejects_late_restore_browser_verification_and_engine_results() {
    let mut worker = worker();
    let shared = worker.credentials.lease(Slot::Shared);
    let playback = worker.credentials.lease(Slot::Playback);
    let attempt = worker.sign_in.attempt;
    let album_type_session = worker.album_type_lookup.session_generation;
    let commands = vec![
        Command::SignOut,
        Command::CredentialsRestored {
            slot: Slot::Playback,
            lease: playback,
            result: Ok(Loaded {
                grant: Some(Grant::Playback(grant("dummy-account", "dummy-grant"))),
                warning: None,
            }),
        },
        Command::WebSignedIn {
            source: ApiSource::Shared,
            token: token("shared"),
            lease: shared,
            attempt,
        },
        Command::WebVerified {
            source: ApiSource::Shared,
            token: token("shared"),
            user: User {
                id: "dummy-account".into(),
                display_name: None,
                product: Some("premium".into()),
            },
            lease: shared,
            attempt,
        },
        Command::PlaybackAuthorized {
            access_token: "dummy-streaming-token".into(),
            lease: playback,
            attempt,
        },
        Command::EngineConnected {
            session_generation: album_type_session,
            engine: None,
            error: Some(Message::Plain("late engine error".into())),
            lease: playback,
        },
        Command::Shutdown,
    ];
    let mut effects = Vec::new();
    for command in commands {
        effects.extend(worker.run(command, live()));
    }
    assert!(!worker.sign_in.signed_in);
    assert!(!worker.playback.engine_busy);
    assert!(worker.playback.playback_grant.is_none());
    assert!(!worker.sign_in.shared_tokens && !worker.sign_in.personal_tokens);
    assert!(worker.api.account().is_none());
    assert!(events(effects).iter().all(|event| !matches!(
        event,
        Event::Auth(AuthStatus::Connected { .. })
            | Event::Playback(
                LocalPlayback::Connecting
                    | LocalPlayback::Ready { .. }
                    | LocalPlayback::Failed(_)
            )
    )));
}

#[test]
fn a_sign_in_goes_from_the_browser_to_the_verified_account() {
    let mut worker = worker();
    let effects = worker.run(
        Command::SignIn { request: 1, config: ProxyConfig::Off, built: Ok(None) },
        live(),
    );
    let lease = worker.credentials.lease(Slot::Shared);
    let attempt = worker.sign_in.attempt;
    assert!(effects.contains(&Effect::BeginSignIn {
        source: ApiSource::Shared,
        client_id: None,
        lease,
        attempt,
        announce: true,
    }));
    let effects = worker.run(
        Command::WebSignedIn {
            source: ApiSource::Shared,
            token: token("shared"),
            lease,
            attempt,
        },
        live(),
    );
    assert_eq!(
        effects,
        vec![Effect::Verify {
            source: ApiSource::Shared,
            token: token("shared"),
            lease,
            attempt,
        }]
    );
    let effects = worker.run(
        Command::WebVerified {
            source: ApiSource::Shared,
            token: token("shared"),
            user: listener("alice"),
            lease,
            attempt,
        },
        live(),
    );
    assert!(effects.contains(&Effect::RememberTokens { source: ApiSource::Shared, lease }));
    assert!(events(effects)
        .contains(&Event::Auth(AuthStatus::Connected { username: "Listener".into() })));
    assert!(!worker.sign_in.flow_open);
}

#[test]
fn a_sign_in_can_be_given_up() {
    let mut worker = worker();
    worker.run(
        Command::SignIn { request: 1, config: ProxyConfig::Off, built: Ok(None) },
        live(),
    );
    let lease = worker.credentials.lease(Slot::Shared);
    assert_eq!(worker.run(Command::CancelSignIn, live()), vec![Effect::CancelFlow]);
    assert!(!worker.credentials.current(lease));
    assert_eq!(*worker.api.state(ApiSource::Shared), SessionState::Unavailable);
    assert!(worker.sign_in.authorizing.is_none());
}

#[test]
fn a_personal_application_waits_for_the_sign_in_under_way() {
    let mut worker = worker();
    worker.run(
        Command::SignIn { request: 1, config: ProxyConfig::Off, built: Ok(None) },
        live(),
    );
    let attempt = worker.sign_in.attempt;
    let effects = worker.run(
        Command::ConfigurePersonalWebApp { client_id: Some("mine".into()), problem: None },
        live(),
    );
    assert_eq!(effects[0], Effect::CancelFlow);
    assert_eq!(worker.sign_in.pending, Some(ApiSource::Personal));
    let effects = worker.run(Command::SignInEnded { source: ApiSource::Shared, attempt }, live());
    assert!(matches!(
        &effects[0],
        Effect::BeginSignIn { source: ApiSource::Personal, client_id: Some(id), announce: false, .. }
            if id == "mine"
    ));
    assert_eq!(worker.sign_in.pending, None);
}

#[test]
fn personal_verification_unblocks_sign_in_while_shared_verification_waits() {
    let mut worker = worker();
    worker.api.set_state(ApiSource::Shared, SessionState::Authorizing);
    let emitted = verify(&mut worker, ApiSource::Personal, "alice");
    assert!(worker.sign_in.signed_in);
    assert_eq!(worker.playback.premium, Some(true));
    assert_eq!(
        *worker.api.state(ApiSource::Shared),
        SessionState::Authorizing
    );
    assert!(emitted.iter().any(connected));
    assert!(emitted.iter().any(|event| matches!(event, Event::Api(response) if matches!(response.as_ref(), ApiResponse::Me(Ok(user)) if user.id == "alice"))));
    let credentials =
        playback_credentials(worker.api.account(), "dummy-streaming-token".into()).unwrap();
    assert_eq!(credentials.username.as_deref(), Some("alice"));
    assert_eq!(credentials.auth_data.bytes(), b"dummy-streaming-token");
    let emitted = verify(&mut worker, ApiSource::Shared, "alice");
    assert!(worker.sign_in.signed_in);
    assert_eq!(worker.api.account(), Some(AccountId::new("alice")));
    assert!(!emitted.iter().any(connected));
}

#[test]
fn a_mismatched_grant_cannot_replace_the_verified_playback_account() {
    let mut worker = worker();
    verify(&mut worker, ApiSource::Shared, "alice");
    let emitted = verify(&mut worker, ApiSource::Personal, "bob");
    assert_eq!(worker.api.account(), Some(AccountId::new("alice")));
    assert_eq!(
        *worker.api.state(ApiSource::Personal),
        SessionState::Unavailable
    );
    assert!(emitted.iter().any(|event| matches!(event, Event::Error(_))));
}

#[test]
fn a_failing_store_is_told_and_does_not_sign_in() {
    let mut worker = worker();
    let lease = worker.credentials.lease(Slot::Shared);
    let mut out = Vec::new();
    worker.on_credentials_restored(Slot::Shared, lease, Err(StorageError::Failed), &mut out);
    assert_eq!(out[0], Effect::Emit(Notice::Error(Message::Storage(StorageError::Failed))));
    assert!(events(out).contains(&Event::Auth(AuthStatus::SignedOut)));
}

// ---- searches ---------------------------------------------------------------------------

#[test]
fn search_requests_keep_their_scope_when_personal_readiness_changes() {
    let mut worker = worker();
    for ready in [false, true] {
        worker.api.set_state(
            ApiSource::Personal,
            if ready {
                SessionState::Ready {
                    account: AccountId::new("alice"),
                }
            } else {
                SessionState::Unavailable
            },
        );
        assert_eq!(
            operation_for(
                &worker.api,
                &ApiRequest::Search {
                    query: "q".into(),
                    serial: 1,
                }
            ),
            Operation::PlaylistSearch
        );
        assert_eq!(
            operation_for(
                &worker.api,
                &ApiRequest::SearchCatalogue {
                    query: "q".into(),
                    serial: 1,
                }
            ),
            Operation::CatalogSearch
        );
        assert_eq!(
            operation_for(
                &worker.api,
                &ApiRequest::SearchPlaylists {
                    query: "q".into(),
                    serial: 1,
                }
            ),
            Operation::PlaylistSearch
        );
    }
}

#[test]
fn new_empty_queries_and_signout_cancel_searches_waiting_for_shared_access() {
    let mut worker = worker();
    let search = |query: &str, serial: u64| {
        Command::Api(ApiRequest::Search { query: query.into(), serial })
    };
    for cancel in 0..3 {
        worker.api.set_state(ApiSource::Shared, SessionState::Authorizing);
        worker.run(search("old", 1), live());
        let old = worker.search_tasks[0];
        let effects = match cancel {
            0 => worker.run(search("new", 2), live()),
            1 => worker.run(search("", 2), live()),
            _ => worker.run(Command::SignOut, live()),
        };
        assert!(
            effects.contains(&Effect::CancelTask { task: old }),
            "abandoned search was cancelled"
        );
        worker.run(search("", 3), live());
        assert!(worker.search_tasks.is_empty());
    }
}

#[test]
fn a_search_is_split_once_the_personal_application_is_ready() {
    let mut worker = worker();
    let account = AccountId::new("alice");
    worker.api.set_state(ApiSource::Personal, SessionState::Ready { account });
    let effects = worker.run(
        Command::Api(ApiRequest::Search { query: "q".into(), serial: 4 }),
        live(),
    );
    assert_eq!(effects.len(), 3);
    assert!(matches!(
        &effects[1],
        Effect::Dispatch { task: 0, request: ApiRequest::SearchPlaylists { serial: 4, .. }, .. }
    ));
    assert!(matches!(
        &effects[2],
        Effect::Dispatch { task: 1, request: ApiRequest::SearchCatalogue { serial: 4, .. }, .. }
    ));
    assert_eq!(worker.search_tasks, vec![0, 1]);
}

#[test]
fn a_new_scan_for_releases_cancels_the_last_one() {
    let mut worker = worker();
    let scan = || {
        Command::Api(ApiRequest::NewReleases {
            days: 30,
            artist_sources: vec![ReleaseArtistSource::FollowedArtists],
            minimum_liked_tracks: 1,
            force_refresh: false,
            generation: 1,
        })
    };
    assert_eq!(worker.run(scan(), live()).len(), 1);
    worker.run(Command::Api(ApiRequest::Me), live());
    let effects = worker.run(scan(), live());
    assert_eq!(effects[1], Effect::CancelTask { task: 0 });
    assert!(matches!(effects[0], Effect::Dispatch { task: 2, background: true, .. }));
}

// ---- local playback ---------------------------------------------------------------------

#[test]
fn restored_playback_requires_the_verified_account() {
    let mut worker = worker();
    verify(&mut worker, ApiSource::Shared, "alice");
    worker.playback.playback_grant = Some(grant("bob", "dummy-reusable-grant"));
    let mut out = Vec::new();
    worker.resume_engine(&mut out);
    assert!(!worker.playback.engine_busy);
    assert!(worker.playback.engine.is_none());
    assert!(!playback_account_matches(
        worker.playback.playback_grant.as_ref().unwrap(),
        worker.api.account()
    ));
    assert!(events(out).iter().any(playback_failed));
}

/// The playlist tree carries the edit permission for a playlist shared by
/// invitation, and its request is sent once, when the playlist library
/// finishes. A cached web token can finish that before the engine connects, so
/// the request has to wait rather than be dropped.
#[test]
fn a_rootlist_request_before_the_engine_waits_for_it() {
    let mut worker = worker();
    assert!(worker.playback.engine.is_none());

    worker.sign_in.signed_in = true;
    let mut out = Vec::new();
    worker.fetch_rootlist(&mut out);
    worker.fetch_rootlist(&mut out);
    assert!(worker.playback.rootlist_pending);
    assert!(out.is_empty());

    let lease = worker.credentials.lease(Slot::Playback);
    let effects = worker.run(
        Command::EngineConnected {
            session_generation: 0,
            engine: Some(ready_engine(7, None)),
            error: None,
            lease,
        },
        live(),
    );
    let reads: Vec<&Effect> =
        effects.iter().filter(|effect| matches!(effect, Effect::ReadRootlist { .. })).collect();
    assert_eq!(
        reads,
        vec![&Effect::ReadRootlist { engine: Ticket { id: 7 }, generation: 0 }],
        "engine readiness fetches only once"
    );
    assert!(!worker.playback.rootlist_pending);
    let shared = || "spotify:playlist:shared".to_string();
    let mut out = Vec::new();
    worker.on_rootlist_finished(
        0,
        Ok(Rootlist {
            entries: vec![RootlistEntry::Playlist(shared())],
            editable: vec![shared()],
        }),
        &mut out,
    );
    let told = events(out);
    assert!(matches!(
        &told[0],
        Event::Rootlist { result: Ok(tree) } if tree.editable.contains(&shared())
    ));
}

#[test]
fn signout_cancels_pending_and_completed_rootlist_work() {
    let mut worker = worker();
    worker.sign_in.signed_in = true;
    let mut out = Vec::new();
    worker.fetch_rootlist(&mut out);
    let generation = worker.sign_in.session;
    worker.sign_out(&mut out);
    assert!(!worker.playback.rootlist_pending);
    worker.fetch_rootlist(&mut out);
    assert!(
        !worker.playback.rootlist_pending,
        "signed-out work must not be deferred"
    );
    worker.sign_in.signed_in = true;
    let mut out = Vec::new();
    worker.on_rootlist_finished(generation, Err("previous account".into()), &mut out);
    assert!(out.is_empty(), "late results cannot reach a new account");
    assert!(!worker.playback.rootlist_pending);
}

#[test]
fn premium_without_local_playback_keeps_album_type_work_bounded() {
    let mut worker = worker();
    verify(&mut worker, ApiSource::Shared, "alice");
    assert_eq!(worker.playback.premium, Some(true));
    assert!(worker.playback.playback_grant.is_none());
    assert!(worker.playback.engine.is_none());

    let mut out = Vec::new();
    worker.fetch_album_types(
        (0..MAX_PENDING_ALBUM_TYPES + 10)
            .map(|index| format!("spotify:album:{index}"))
            .collect(),
        &mut out,
    );

    assert!(worker.album_type_lookup.active.is_none());
    assert_eq!(
        worker.album_type_lookup.pending.len(),
        MAX_PENDING_ALBUM_TYPES
    );
    assert_eq!(worker.album_type_lookup.seen.len(), MAX_PENDING_ALBUM_TYPES);
}

#[test]
fn a_playback_browser_result_after_sign_out_cannot_start_an_engine() {
    let mut worker = worker();
    worker.playback.engine_busy = true;
    let mut out = Vec::new();
    worker.on_playback_authorized("dummy-streaming-token".into(), &mut out);
    assert!(!worker.playback.engine_busy);
    assert!(worker.playback.engine.is_none());
    assert!(events(out).iter().any(playback_failed));
    assert!(playback_credentials(Some(AccountId::new("")), "dummy".into()).is_none());
}

#[test]
fn six_session_drops_in_ten_minutes_give_up() {
    let start: u64 = 5_000;
    let mut reconnects: Vec<u64> = Vec::new();
    for i in 0..RECONNECT_LIMIT {
        let at = start + 1_000 * (i as u64);
        assert!(
            !session_drops_exhausted(&mut reconnects, at),
            "attempt {i} should still reconnect"
        );
        reconnects.push(at);
    }
    assert!(session_drops_exhausted(&mut reconnects, start + 30_000));
}

#[test]
fn session_drops_outside_the_window_do_not_count() {
    let start: u64 = 5_000;
    let mut reconnects = vec![start; RECONNECT_LIMIT];
    assert!(!session_drops_exhausted(
        &mut reconnects,
        start + RECONNECT_WINDOW_MS + 1_000
    ));
    assert!(reconnects.is_empty());
}

#[test]
fn an_engine_change_during_connect_is_deferred() {
    let mut pending = false;
    assert!(defer_engine_replace(true, &mut pending));
    assert!(pending);
    assert!(!defer_engine_replace(false, &mut pending));
    assert!(pending, "finishing the attempt owns clearing the request");
}

/// A worker whose engine is running.
fn playing_worker() -> Worker {
    let mut worker = worker();
    verify(&mut worker, ApiSource::Shared, "alice");
    worker.playback.playback_grant = Some(grant("alice", "dummy"));
    let mut out = Vec::new();
    worker.resume_engine(&mut out);
    assert!(worker.playback.engine_busy);
    let lease = worker.credentials.lease(Slot::Playback);
    let effects = worker.run(
        Command::EngineConnected {
            session_generation: 0,
            engine: Some(ready_engine(7, Some(grant("alice", "again")))),
            error: None,
            lease,
        },
        live(),
    );
    assert_eq!(effects[0], Effect::StorePlayback { lease, grant: grant("alice", "again") });
    worker
}

#[test]
fn a_dropped_session_is_picked_up_where_it_was() {
    let mut worker = playing_worker();
    let point = Ticket { id: 33 };
    let now = Live { now_ms: 100, resume_point: Some(point), playing: false };
    let effects = worker.run(Command::Reconnect, now);
    assert_eq!(effects[0], Effect::ShutdownEngine(Ticket { id: 7 }));
    assert!(matches!(effects[2], Effect::ConnectEngine { .. }));
    let lease = worker.credentials.lease(Slot::Playback);
    let effects = worker.run(
        Command::EngineConnected {
            session_generation: 0,
            engine: Some(ready_engine(8, None)),
            error: None,
            lease,
        },
        now,
    );
    assert_eq!(effects[0], Effect::ScheduleResumeCheck { delay_ms: 1_500 });
    for _ in 0..3 {
        let effects = worker.run(Command::VerifyResume, now);
        assert_eq!(
            effects,
            vec![
                Effect::Resume { engine: Ticket { id: 8 }, point },
                Effect::ScheduleResumeCheck { delay_ms: 4_000 },
            ]
        );
    }
    assert!(worker.run(Command::VerifyResume, now).is_empty());
    assert!(worker.playback.resume_verify.is_none());
}

#[test]
fn a_session_that_keeps_dropping_is_left_alone() {
    let mut worker = playing_worker();
    worker.reconnects = vec![1; RECONNECT_LIMIT];
    let now = Live { now_ms: 2, resume_point: Some(Ticket { id: 3 }), playing: false };
    let effects = worker.run(Command::Reconnect, now);
    assert_eq!(
        effects,
        vec![
            Effect::ShutdownEngine(Ticket { id: 7 }),
            Effect::Emit(Notice::PlaybackFailed(Message::KeepsDropping)),
        ]
    );
    assert!(worker.playback.resume.is_none());
}

#[test]
fn an_engine_of_another_account_is_shut_down() {
    let mut worker = worker();
    verify(&mut worker, ApiSource::Shared, "alice");
    let lease = worker.credentials.lease(Slot::Playback);
    let effects = worker.run(
        Command::EngineConnected {
            session_generation: 0,
            engine: Some(ready_engine(7, Some(grant("bob", "dummy")))),
            error: None,
            lease,
        },
        live(),
    );
    assert_eq!(
        effects,
        vec![
            Effect::ShutdownEngine(Ticket { id: 7 }),
            Effect::Emit(Notice::PlaybackFailed(Message::AuthorizedForAnother)),
        ]
    );
    assert!(worker.playback.engine.is_none());
    assert!(worker.playback.playback_grant.is_none());
}

#[test]
fn settings_that_change_while_connecting_discard_the_engine() {
    let mut worker = worker();
    verify(&mut worker, ApiSource::Shared, "alice");
    worker.playback.playback_grant = Some(grant("alice", "dummy"));
    let mut out = Vec::new();
    worker.resume_engine(&mut out);
    worker.engine_started(Some("http://127.0.0.1:1/".into()));
    let audio = EngineConfig { proxy: ProxyConfig::Off, audio: Ticket { id: 2 } };
    assert!(worker.run(Command::RestartEngine(audio), live()).is_empty());
    let lease = worker.credentials.lease(Slot::Playback);
    let effects = worker.run(
        Command::EngineConnected {
            session_generation: 0,
            engine: Some(ready_engine(7, None)),
            error: None,
            lease,
        },
        live(),
    );
    assert_eq!(effects[0], Effect::ShutdownEngine(Ticket { id: 7 }));
    assert!(matches!(
        &effects[2],
        Effect::ConnectEngine { config, .. } if config.audio == Ticket { id: 2 }
    ));
}

#[test]
fn an_account_without_premium_gets_no_engine() {
    let mut worker = playing_worker();
    let free = User { product: Some("free".into()), ..listener("alice") };
    let lease = worker.credentials.lease(Slot::Shared);
    let personal_lease = worker.credentials.lease(Slot::Personal);
    let effects = worker.run(
        Command::ApiFinished {
            generation: 0,
            response: Box::new(ApiResponse::Me(Ok(free))),
            expired: None,
            shared_lease: lease,
            personal_lease,
        },
        live(),
    );
    assert_eq!(effects[0], Effect::ShutdownEngine(Ticket { id: 7 }));
    assert_eq!(effects[1], Effect::Emit(Notice::PlaybackFailed(Message::PremiumNeeded)));
    let effects = worker.run(Command::AuthorizePlayback, live());
    assert_eq!(
        events(effects),
        vec![Event::Playback(LocalPlayback::Failed(
            "Local playback needs Spotify Premium.".into()
        ))]
    );
}

#[test]
fn a_receiver_is_handed_the_grant_of_the_verified_account_only() {
    let mut worker = playing_worker();
    let receiver = || Receiver { name: "Kitchen".into(), address: Ticket { id: 5 } };
    let effects = worker.run(Command::ActivateReceiver(receiver()), live());
    assert!(matches!(&effects[0], Effect::ActivateReceiver { credentials: Some(_), .. }));
    worker.playback.playback_grant = Some(grant("bob", "dummy"));
    let effects = worker.run(Command::ActivateReceiver(receiver()), live());
    assert!(matches!(&effects[0], Effect::ActivateReceiver { credentials: None, .. }));
}

#[test]
fn album_types_are_looked_up_one_after_the_other() {
    let mut worker = playing_worker();
    let effects = worker.run(Command::AlbumTypes(vec!["a".into(), "b".into()]), live());
    assert_eq!(effects.len(), 1);
    let first = worker.album_type_lookup.active.clone().expect("a lookup");
    let effects = worker.run(
        Command::AlbumTypeResolved { request: first, result: Ok(true) },
        live(),
    );
    assert_eq!(
        effects[0],
        Effect::Emit(Notice::Event(Event::AlbumType { uri: "a".into(), result: Ok(true) }))
    );
    assert!(matches!(
        &effects[1],
        Effect::LookUpAlbumType { request, .. } if request.uri == "b"
    ));
}

#[test]
fn caches_belong_to_the_verified_account() {
    let mut worker = worker();
    let load = || Command::LoadPlaylistCache { id: "pl1".into(), generation: 3 };
    assert!(worker.run(load(), live()).is_empty());
    let store = || Command::StoreLikedSongsCache {
        account_id: "alice".into(),
        cache: Ticket { id: 1 },
    };
    assert!(worker.run(store(), live()).is_empty());
    verify(&mut worker, ApiSource::Shared, "alice");
    assert_eq!(
        worker.run(load(), live()),
        vec![Effect::ReadPlaylistCache {
            account: AccountId::new("alice"),
            id: "pl1".into(),
            generation: 3,
        }]
    );
    assert_eq!(worker.run(store(), live()).len(), 1);
}

#[test]
fn connection_errors_are_put_into_plain_words() {
    let text = |error: &str| friendly_connect_error(error.into()).text();
    assert_eq!(
        text("login failed: BadCredentials"),
        "Spotify rejected the saved sign-in. Please sign in again."
    );
    assert_eq!(text("PREMIUM account needed"), "Local playback needs Spotify Premium.");
    assert_eq!(text("DNS error"), "Couldn't reach Spotify: DNS error");
    assert_eq!(text("something else"), "something else");
    assert_eq!(
        word_connect_error("Bad Credentials".into(), "bad credentials"),
        Message::RejectedSignIn
    );
    assert_eq!(
        word_connect_error("X".into(), "cannot resolve"),
        Message::Unreachable("X".into())
    );
}

#[test]
fn only_some_commands_pass_while_offline() {
    assert!(Command::Shutdown.passes(true));
    assert!(Command::InspectUpdate.passes(true));
    assert!(!Command::SignOut.passes(true));
    assert!(Command::SignOut.passes(false));
}

#[test]
fn a_player_command_needs_an_engine() {
    let mut signed_out = worker();
    let effects = signed_out.run(Command::Player(Ticket { id: 4 }), live());
    assert_eq!(effects, vec![Effect::Emit(Notice::Error(Message::NoLocalPlayback))]);
    let mut playing = playing_worker();
    let effects = playing.run(Command::Player(Ticket { id: 4 }), live());
    assert_eq!(
        effects,
        vec![Effect::EngineCommand { engine: Ticket { id: 7 }, command: Ticket { id: 4 } }]
    );
}

#[test]
fn network_settings_are_compared_with_the_proxy_of_the_engine() {
    let mut worker = worker();
    verify(&mut worker, ApiSource::Shared, "alice");
    worker.playback.playback_grant = Some(grant("alice", "dummy"));
    let mut out = Vec::new();
    worker.resume_engine(&mut out);
    assert!(matches!(out.last(), Some(Effect::ConnectEngine { .. })));
    worker.engine_started(Some("http://127.0.0.1:8080/".into()));
    worker.run(Command::Api(ApiRequest::Me), live());
    let apply = |url: &str| Command::ApplyProxy {
        request: 1,
        config: ProxyConfig::Http(manual(8080)),
        built: Ok(Some(url.into())),
    };
    let told = events(worker.run(apply("http://127.0.0.1:8080/"), live()));
    assert!(matches!(told[0], Event::ProxyApplied { result: Ok(false), .. }));
    assert!(!worker.playback.restart_pending);
    let told = events(worker.run(apply("http://127.0.0.1:9090/"), live()));
    assert!(matches!(told[0], Event::ProxyApplied { result: Ok(true), .. }));
    assert!(worker.playback.restart_pending);
}
