use std::sync::Arc;

use spotifast::album_types::AlbumTypeRequest;
use spotifast::credentials::{Lease, Slot, StoredToken};
use spotifast::error::{ApiError, ApiSource};
use spotifast::events::{
    AuthStatus, AuthenticationType, Command, Effect, Event, LocalPlayback, Message, Notice,
    PlaybackCredentials, Secret, StorageError, Ticket,
};
use spotifast::models::{Image, User};
use spotifast::tasks::{
    album_type_answered, connection_ended, cover_image, engine_said, network_at_start,
    playback_grant_answered, proxy_password_revoked, proxy_password_written, receiver_credentials,
    sign_in_answered, storage_notice, Connection, EngineEvent, Verdict, Verification,
};

const LEASE: Lease = Lease { slot: Slot::Shared, epoch: 4 };

fn verification() -> Verification {
    Verification::new(ApiSource::Shared, StoredToken::default(), LEASE, 9)
}

fn ended() -> Command {
    Command::SignInEnded { source: ApiSource::Shared, attempt: 9 }
}

#[test]
fn a_verification_waits_longer_each_time() {
    let mut verification = verification();
    let mut waits: Vec<u64> = Vec::new();
    for _ in 0..7 {
        match verification.answered(Err(ApiError::Network("down".into())), true) {
            Verdict::Wait { seconds } => waits.push(seconds),
            Verdict::Report(_) => panic!("a passing trouble ended the verification"),
        }
    }
    assert_eq!(waits, [2, 4, 8, 16, 32, 60, 60]);
}

#[test]
fn a_refusal_ends_a_verification_and_a_busy_server_does_not() {
    let status = |status: u16| ApiError::Status { status, message: String::new() };
    assert!(matches!(verification().answered(Err(status(503)), true), Verdict::Wait { .. }));
    assert!(matches!(
        verification().answered(Err(status(403)), true),
        Verdict::Report(Command::WebVerificationFailed { attempt: 9, lease: LEASE, .. })
    ));
    let expired = || ApiError::SignInExpired { api_source: ApiSource::Shared };
    assert!(matches!(
        verification().answered(Err(expired()), true),
        Verdict::Report(Command::WebVerificationFailed { .. })
    ));
    assert!(matches!(
        verification().answered(Err(expired()), false),
        Verdict::Report(command) if command == ended()
    ));
    let user = User { id: "alice".into(), display_name: None, product: None };
    assert!(matches!(
        verification().answered(Ok(user), true),
        Verdict::Report(Command::WebVerified { user, .. }) if user.id == "alice"
    ));
    assert_eq!(verification().before_asking(true, true), None);
    assert_eq!(verification().before_asking(false, true), Some(ended()));
    assert_eq!(verification().before_asking(true, false), Some(ended()));
}

#[test]
fn the_browser_may_bring_nothing() {
    let failed = |text: &str, current: bool| {
        sign_in_answered(ApiSource::Shared, Err(text.into()), LEASE, 9, current)
    };
    let report = failed("it broke", true);
    assert_eq!(
        report.notices,
        vec![
            Notice::Event(Event::Auth(AuthStatus::SignedOut)),
            Notice::Error(Message::SignInFailed("it broke".into())),
        ]
    );
    assert_eq!(report.command, Some(ended()));
    assert_eq!(failed("sign-in cancelled", true).notices.len(), 1);
    assert!(failed("it broke", false).notices.is_empty());
    let report = sign_in_answered(ApiSource::Shared, Ok(StoredToken::default()), LEASE, 9, false);
    assert!(report.notices.is_empty());
    assert!(matches!(report.command, Some(Command::WebSignedIn { attempt: 9, .. })));
}

#[test]
fn a_playback_grant_may_be_refused() {
    let failed = |text: &str, current: bool| {
        playback_grant_answered(Err(text.into()), LEASE, 9, current)
    };
    assert_eq!(
        failed("cancelled by the listener", true).notices,
        vec![Notice::Event(Event::Playback(LocalPlayback::Unavailable))]
    );
    assert_eq!(
        failed("refused", true).notices,
        vec![Notice::PlaybackFailed(Message::Plain("refused".into()))]
    );
    assert!(failed("refused", false).notices.is_empty());
    assert_eq!(
        failed("refused", false).command,
        Some(Command::PlaybackAuthEnded { attempt: 9 })
    );
    assert!(matches!(
        playback_grant_answered(Ok("token".into()), LEASE, 9, true).command,
        Some(Command::PlaybackAuthorized { access_token, .. }) if access_token == "token"
    ));
}

#[test]
fn connections_end_in_an_engine_or_a_reason() {
    let reason = |connection: Connection| match connection_ended(connection, 5, LEASE) {
        Command::EngineConnected { session_generation: 5, engine: None, error, .. } => error,
        _ => None,
    };
    assert_eq!(reason(Connection::TimedOut), Some(Message::ConnectTimedOut));
    assert_eq!(
        reason(Connection::NoCache("dns".into())),
        Some(Message::Plain("dns".into()))
    );
    assert_eq!(
        reason(Connection::Failed("dns".into())),
        Some(Message::Unreachable("dns".into()))
    );
    assert_eq!(Message::ConnectTimedOut.text(), "Connecting to Spotify timed out");
}

#[test]
fn an_engine_is_heard_while_its_lease_lasts() {
    let state = engine_said(EngineEvent::State(Ticket { id: 2 }), true);
    assert_eq!(state.notices, vec![Notice::Event(Event::Local(Ticket { id: 2 }))]);
    assert_eq!(engine_said(EngineEvent::SessionEnded, true).command, Some(Command::Reconnect));
    let late = engine_said(EngineEvent::SessionEnded, false);
    assert!(late.notices.is_empty() && late.command.is_none());
}

#[test]
fn a_lookup_that_takes_too_long_fails() {
    let request = || AlbumTypeRequest {
        uri: "a".into(),
        session_generation: 1,
        engine_generation: 2,
    };
    assert_eq!(
        album_type_answered(request(), None),
        Command::AlbumTypeResolved {
            request: request(),
            result: Err("album metadata timed out".into()),
        }
    );
    assert_eq!(
        album_type_answered(request(), Some(Ok(true))),
        Command::AlbumTypeResolved { request: request(), result: Ok(true) }
    );
}

#[test]
fn receivers_need_a_current_grant() {
    let held = || {
        Some(Arc::new(PlaybackCredentials {
            username: Some("alice".into()),
            auth_type: AuthenticationType::Stored,
            auth_data: Secret::Bytes(vec![1]),
        }))
    };
    assert!(receiver_credentials(held(), true).is_ok());
    assert_eq!(
        receiver_credentials(held(), false),
        Err("Sign-in changed before receiver activation.".into())
    );
    assert_eq!(
        receiver_credentials(None, true),
        Err("Enable playback on this computer first, so there is an account to hand over".into())
    );
}

#[test]
fn storage_troubles_are_told_while_they_matter() {
    assert_eq!(
        storage_notice(StorageError::Failed, true),
        Some(Notice::Error(Message::Storage(StorageError::Failed)))
    );
    assert_eq!(storage_notice(StorageError::Stale, true), None);
    assert_eq!(storage_notice(StorageError::Failed, false), None);
    assert_eq!(proxy_password_written(Ok(()), true, true), Some(Event::ProxyPasswordStored));
    assert_eq!(proxy_password_written(Ok(()), false, true), None);
    assert_eq!(
        proxy_password_written(Err(StorageError::Failed), false, true),
        Some(Event::ProxyStorageFailed(StorageError::Failed))
    );
    assert_eq!(proxy_password_written(Err(StorageError::Failed), true, false), None);
    assert_eq!(
        proxy_password_revoked(Ok(()), LEASE),
        vec![
            Effect::Emit(Notice::Event(Event::ProxyPasswordStored)),
            Effect::DeleteProxyPassword { lease: LEASE },
        ]
    );
    assert_eq!(
        proxy_password_revoked(Err(StorageError::Failed), LEASE),
        vec![Effect::Emit(Notice::Event(Event::ProxyStorageFailed(StorageError::Failed)))]
    );
}

#[test]
fn the_network_starts_blocked_while_its_settings_are_read() {
    let start = network_at_start(true, Ok(None));
    assert_eq!(start.blocked.as_deref(), Some("Restoring proxy settings"));
    assert_eq!(start.notice, None);
    let start = network_at_start(false, Err("no port".into()));
    assert_eq!(start.blocked.as_deref(), Some("no port"));
    assert_eq!(
        start.notice.map(Notice::event),
        Some(Event::Error("Network configuration failed: no port".into()))
    );
    assert_eq!(network_at_start(false, Ok(None)).blocked, None);
}

#[test]
fn a_cover_is_compared_with_the_widest_image() {
    let image = |url: &str, width: Option<u32>| Image { url: url.into(), width, height: None };
    assert_eq!(cover_image(&vec![]), Err("No playlist artwork yet.".into()));
    let images = vec![
        image("thumbnail", Some(64)),
        image("full", Some(640)),
        image("unknown", None),
        image("again", Some(640)),
    ];
    assert_eq!(cover_image(&images), Ok(1));
}
