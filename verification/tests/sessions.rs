use std::sync::Arc;

use spotifast::api::{ApiRequest, ApiResponse, Cover};
use spotifast::client::ApiClient;
use spotifast::error::{ApiError, ApiSource};
use spotifast::exchange::{
    after_shuffle, asks_session, course, expired, handle, over_session, plan, refused, same_account,
    session_read, session_response, settle, Course, Failure, Plan, Reply, SessionAnswer, SessionRead,
};
use spotifast::gateway::{
    operation_for, AccountId, Gateway, Operation, PlaylistAccess, Route, SessionState,
};
use spotifast::models::{Page, Playlist, PlaylistOwner, User};
use spotifast::request::{HttpRequest, PlayRequest};
use spotifast::transport::Method;

fn ready(id: &str) -> SessionState {
    SessionState::Ready { account: AccountId::new(id) }
}

fn path(plan: &Plan) -> &str {
    match plan {
        Plan::Send(request) | Plan::Shuffle(request) => request.path.as_str(),
        _ => "",
    }
}

/// The session answers only for the account the Web API verified.
#[test]
fn the_session_answers_only_for_the_web_apis_account() {
    let alice = AccountId::new("alice");
    assert!(same_account("alice", Some(&alice)));
    assert!(!same_account("bob", Some(&alice)));
    assert!(!same_account("alice", None), "nothing verified yet");
}

/// A header read, a page of rows or a sample at the request's offset, and
/// nothing else: a duplicate check shares the rows' operation but stays with
/// the Web API.
#[test]
fn a_request_asks_the_session_for_a_header_or_a_page_or_nothing() {
    let playlist = ApiRequest::Playlist {
        id: "pl1".into(),
        generation: 1,
    };
    assert_eq!(
        session_read(&playlist),
        Some(SessionRead::Header { id: "pl1" })
    );
    let items = ApiRequest::PlaylistItems {
        id: "pl1".into(),
        offset: 150,
        generation: 1,
    };
    assert_eq!(
        session_read(&items),
        Some(SessionRead::Rows {
            id: "pl1",
            offset: 150
        })
    );
    let sample = ApiRequest::PlaylistSample {
        id: "pl1".into(),
        offset: 150,
        generation: 1,
    };
    assert_eq!(
        session_read(&sample),
        Some(SessionRead::Sample {
            id: "pl1",
            offset: 150
        })
    );
    let duplicates = ApiRequest::CheckPlaylistDuplicates {
        playlist_id: "pl1".into(),
        playlist_name: "Mine".into(),
        items: Vec::new(),
        position: None,
    };
    assert_eq!(session_read(&duplicates), None);
    assert_eq!(session_read(&ApiRequest::Me), None);
}

/// A session answer reaches the app as the Web API's would: a value, a final
/// refusal, or nothing, so the Web API is asked instead.
#[test]
fn a_session_answer_settles_like_a_web_api_one() {
    assert!(matches!(settle(Ok::<u8, Failure>(7)), Some(Ok(7))));
    let refused = settle(Err::<u8, Failure>(Failure::Definitive(ApiError::Status {
        status: 403,
        message: "Forbidden".into(),
    })));
    assert!(matches!(
        refused,
        Some(Err(ApiError::Status { status: 403, .. }))
    ));
    let dropped = settle(Err::<u8, Failure>(Failure::Retry("gone".into())));
    assert!(dropped.is_none(), "the Web API gets its turn");
}

/// The response carries the request's own id, offset, and generation; the app
/// drops an answer whose generation is not the page's.
#[test]
fn a_session_answer_carries_the_requests_identity() {
    let rows = || SessionAnswer::Rows(Ok(Page::default()));
    let header = || SessionAnswer::Header(Ok(Playlist::default()));
    let items = ApiRequest::PlaylistItems {
        id: "pl1".into(),
        offset: 150,
        generation: 7,
    };
    assert!(matches!(
        session_response(&items, rows()),
        Some(ApiResponse::PlaylistItems { id, offset: 150, generation: 7, result: Ok(_) }) if id == "pl1"
    ));
    let sample = ApiRequest::PlaylistSample {
        id: "pl1".into(),
        offset: 150,
        generation: 7,
    };
    assert!(matches!(
        session_response(&sample, rows()),
        Some(ApiResponse::PlaylistSample { id, generation: 7, result: Ok(_) }) if id == "pl1"
    ));
    let playlist = ApiRequest::Playlist {
        id: "pl1".into(),
        generation: 7,
    };
    assert!(matches!(
        session_response(&playlist, header()),
        Some(ApiResponse::Playlist { id, generation: 7, result: Ok(_) }) if id == "pl1"
    ));
    assert!(
        session_response(&playlist, rows()).is_none(),
        "rows are no header"
    );
    assert!(
        session_response(&ApiRequest::Me, header()).is_none(),
        "nothing else is served here"
    );
}

#[test]
fn cover_upload_uses_the_existing_playlist_mutation_route() {
    let mut api = Gateway::new();
    assert!(api.install(ApiSource::Shared, AccountId::new("me")));
    let request = ApiRequest::UploadPlaylistCover {
        id: "test".into(),
        request: 1,
        previous_urls: vec![],
        cover: Cover {
            jpeg: Arc::new(Vec::new()),
            encoded: "".into(),
            uri: String::new(),
        },
    };
    assert_eq!(
        operation_for(&api, &request),
        Operation::PlaylistMutation(PlaylistAccess::Unknown)
    );
    let mut playlist = Playlist {
        id: "test".into(),
        ..Default::default()
    };
    playlist.owner.id = Some("me".into());
    api.observe_playlist(&playlist);
    assert_eq!(
        operation_for(&api, &request),
        Operation::PlaylistMutation(PlaylistAccess::Owned)
    );
    playlist.owner.id = Some("other".into());
    playlist.collaborative = true;
    api.observe_playlist(&playlist);
    assert_eq!(
        operation_for(&api, &request),
        Operation::PlaylistMutation(PlaylistAccess::Collaborative)
    );
}

#[test]
fn both_sessions_belong_to_one_account() {
    let mut api = Gateway::new();
    assert!(api.install(ApiSource::Shared, AccountId::new("alice")));
    assert!(!api.install(ApiSource::Personal, AccountId::new("bob")));
    assert!(api.install(ApiSource::Personal, AccountId::new("alice")));
    assert_eq!(api.account(), Some(AccountId::new("alice")));
    api.clear_all();
    assert_eq!(api.account(), None);
    assert_eq!(api.playlist_access("test"), PlaylistAccess::Unknown);
}

#[test]
fn requests_wait_for_the_session_that_serves_them() {
    let mut api = Gateway::new();
    assert_eq!(api.client_for(Operation::CanonicalAccount), Route::NotSignedIn);
    api.set_state(ApiSource::Shared, SessionState::Authorizing);
    assert_eq!(api.client_for(Operation::PlaylistSearch), Route::Wait);
    api.set_state(ApiSource::Shared, ready("alice"));
    assert_eq!(
        api.client_for(Operation::PlaylistSearch),
        Route::Use(ApiSource::Shared)
    );
    api.set_state(ApiSource::Personal, ready("alice"));
    assert_eq!(api.source_for(Operation::CatalogSearch), ApiSource::Personal);
    assert_eq!(api.source_for(Operation::PlaylistSearch), ApiSource::Shared);
}

#[test]
fn playlists_are_read_over_a_session_of_the_same_account() {
    let mut api = Gateway::new();
    api.set_state(ApiSource::Shared, ready("alice"));
    let request = ApiRequest::Playlist { id: "pl1".into(), generation: 1 };
    assert!(asks_session(&api, &request, Some("alice")));
    assert!(!asks_session(&api, &request, None));
    assert!(!asks_session(&api, &request, Some("bob")));
    assert!(!asks_session(&api, &ApiRequest::Me, Some("alice")));
    assert!(over_session(&request, None).is_none());
    let answer = over_session(&request, Some(SessionAnswer::Header(Ok(Playlist::default()))));
    assert!(matches!(answer, Some(ApiResponse::Playlist { generation: 1, result: Ok(_), .. })));
}

#[test]
fn requests_are_planned_and_answered() {
    let client = ApiClient::new(20, 50, ApiSource::Shared, 0);
    assert_eq!(path(&plan(&ApiRequest::Me, &client)), "/me");
    let queue = ApiRequest::AddManyToQueue {
        request: 1,
        uris: vec!["a".into()],
        device_id: None,
    };
    assert!(matches!(plan(&queue, &client), Plan::Append(_)));
    let mut api = Gateway::new();
    api.set_state(ApiSource::Shared, ready("alice"));
    let user = User { id: "alice".into(), display_name: None, product: None };
    let (response, gone) = handle(&mut api, ApiRequest::Me, None, Reply::User(Ok(user))).unwrap();
    assert!(matches!(response, ApiResponse::Me(Ok(user)) if user.id == "alice"));
    assert_eq!(gone, None);
    assert!(handle(&mut api, ApiRequest::Me, None, Reply::Done(Ok(()))).is_none());
    let error = ApiError::SignInExpired { api_source: ApiSource::Shared };
    let reply = refused(&ApiRequest::Me, error);
    assert_eq!(expired(&reply), Some(ApiSource::Shared));
    let (response, gone) = handle(&mut api, ApiRequest::Me, None, reply).unwrap();
    assert!(matches!(response, ApiResponse::Me(Err(_))));
    assert_eq!(gone, Some(ApiSource::Shared));
}

#[test]
fn playlists_that_were_answered_are_remembered() {
    let mut api = Gateway::new();
    api.set_state(ApiSource::Shared, ready("alice"));
    let mine = Playlist {
        id: "pl1".into(),
        owner: PlaylistOwner { id: Some("alice".into()) },
        ..Playlist::default()
    };
    let request = ApiRequest::Playlist { id: "pl1".into(), generation: 4 };
    let (response, _) = handle(&mut api, request, None, Reply::Playlist(Ok(mine))).unwrap();
    assert!(matches!(response, ApiResponse::Playlist { generation: 4, .. }));
    assert_eq!(api.playlist_access("pl1"), PlaylistAccess::Owned);
    api.invalidate_playlist_access("pl1");
    assert_eq!(api.playlist_access("pl1"), PlaylistAccess::Unknown);
}

#[test]
fn saved_tracks_name_the_account_that_asked() {
    let mut api = Gateway::new();
    let request = ApiRequest::SavedTracks { offset: 50, generation: 2 };
    let account = Some(AccountId::new("alice"));
    let reply = Reply::SavedTracks(Ok(Page::default()));
    let (response, _) = handle(&mut api, request, account, reply).unwrap();
    assert!(matches!(
        response,
        ApiResponse::SavedTracks { offset: 50, generation: 2, account_id: Some(id), .. } if id == "alice"
    ));
}

#[test]
fn playing_starts_only_once_shuffling_is_set() {
    let client = ApiClient::new(20, 50, ApiSource::Shared, 0);
    let play = PlayRequest::context("spotify:album:x");
    let next: HttpRequest = after_shuffle(&client, &None, &play, Ok(())).unwrap();
    assert_eq!((next.method, next.path.as_str()), (Method::Put, "/me/player/play"));
    let failed = after_shuffle(&client, &None, &play, Err(ApiError::RateLimited));
    assert!(matches!(failed, Err(ApiError::RateLimited)));
}

#[test]
fn a_request_goes_to_the_session_and_then_to_the_web_api() {
    let mut api = Gateway::new();
    let request = ApiRequest::Playlist { id: "pl1".into(), generation: 1 };
    assert_eq!(
        course(&api, &request, Some("alice"), false),
        Course::Refuse(ApiError::NotSignedIn)
    );
    api.set_state(ApiSource::Shared, SessionState::Authorizing);
    assert_eq!(course(&api, &request, Some("alice"), false), Course::Wait);
    api.set_state(ApiSource::Shared, ready("alice"));
    assert_eq!(course(&api, &request, Some("alice"), false), Course::Session);
    assert_eq!(
        course(&api, &request, Some("alice"), true),
        Course::Web(ApiSource::Shared)
    );
    assert_eq!(
        course(&api, &request, Some("bob"), false),
        Course::Web(ApiSource::Shared)
    );
    assert_eq!(
        course(&api, &ApiRequest::Me, Some("alice"), false),
        Course::Web(ApiSource::Shared)
    );
}
