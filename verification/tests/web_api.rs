use spotifast::api::ApiRequest;
use spotifast::client::{ApiClient, DuplicateWalk, QueueBatch, MAX_COVER_PAYLOAD};
use spotifast::credentials::{
    Ledger, Refresh, Slot, StoredToken, TokenProvider, WebTokens,
};
use spotifast::error::{
    choose_failure_text, failed_status, is_quota_exhausted, is_quota_reason, read_error, ApiError,
    ApiSource, ErrorBody, JsonPart,
};
use spotifast::events::{AuthStatus, LocalPlayback};
use spotifast::models::{Episode, Page, PlayableItem, PlaylistItem, Track};
use spotifast::request::{Body, HttpRequest, JsonField, JsonValue, PlayRequest, Scalar};
use spotifast::sending::{Action, Happened, Sending, Stage};
use spotifast::text::is_white;
use spotifast::transport::{
    address_of, framing_of, has_optional_payload, read_number, read_payload, snapshot, Cooldown,
    Delivery, Framing, Method, NetActivity, OnLimit, OnStatus, Payload, BASE_URL,
};

fn client() -> ApiClient {
    ApiClient::new(20, 50, ApiSource::Shared, 0)
}

fn token(access: &str) -> StoredToken {
    StoredToken {
        client_id: "client".into(),
        access_token: access.into(),
        refresh_token: "dummy-refresh".into(),
        expires_at: u64::MAX,
        scope: String::new(),
    }
}

fn field(name: &str, value: JsonValue) -> JsonField {
    JsonField { name: name.into(), value }
}

fn text(value: &str) -> Scalar {
    Scalar::Text(value.into())
}

fn query(request: &HttpRequest) -> Vec<(&str, &str)> {
    request.query.iter().map(|pair| (pair.name.as_str(), pair.value.as_str())).collect()
}

#[test]
fn revoked_provider_cannot_return_or_persist_its_token() {
    let mut store = Ledger::new();
    let mut tokens = WebTokens::new(
        token("dummy-access"),
        store.lease(Slot::Shared),
        ApiSource::Shared,
    );
    // A token can be used in memory before it may be stored.
    assert_eq!(
        tokens.access_token(&store, false, false).unwrap(),
        Some("dummy-access".to_string())
    );
    assert!(!tokens.remember);
    assert_eq!(tokens.remember(&store), Some(token("dummy-access")));
    store.revoke_spotify();
    assert!(matches!(
        tokens.access_token(&store, false, false),
        Err(ApiError::SignInExpired { api_source: ApiSource::Shared })
    ));
    assert_eq!(tokens.remember(&store), None);
}

#[test]
fn queue_batch_preserves_order_and_duplicates_and_stops_on_failure() {
    let client = client();
    let uris: Vec<String> = vec![
        "spotify:track:a".into(),
        "spotify:track:b".into(),
        "spotify:track:a".into(),
    ];
    for fail in [false, true] {
        let mut batch = QueueBatch::new(uris.clone(), Some("phone".into()));
        let mut sent: Vec<String> = Vec::new();
        let mut ended = None;
        while let Some(request) = batch.next_append(&client) {
            assert_eq!(request.method, Method::Post);
            assert_eq!(request.path, "/me/player/queue");
            let pairs = query(&request);
            assert_eq!(pairs[0], ("device_id", "phone"));
            assert_eq!(pairs[1].0, "uri");
            sent.push(pairs[1].1.to_string());
            let result = if fail && sent.len() == 2 {
                Err(ApiError::Status { status: 403, message: "Forbidden".into() })
            } else {
                Ok(())
            };
            ended = batch.appended(result);
            if ended.is_some() {
                break;
            }
        }
        let (added, result) = ended.expect("the batch ended");
        assert_eq!(result.is_err(), fail);
        assert_eq!(added, if fail { 1 } else { 3 });
        if fail {
            assert_eq!(result.unwrap_err().status(), Some(403));
        }
        assert_eq!(sent.len(), if fail { 2 } else { 3 });
        assert_eq!(sent, uris[..sent.len()].to_vec());
    }
    // Only the rejected song is retried, even beyond the ordinary number of
    // tries, with the pause that was asked for.
    let mut delivery = Delivery::new(Method::Post, "/me/player/queue");
    for (retry_after, wait_ms) in [("1", 1_000), ("0", 0), ("0", 0), ("0", 0)] {
        delivery.begin_attempt();
        assert_eq!(delivery.on_status(429), OnStatus::ReadLimit);
        assert_eq!(
            delivery.on_limit(Some(retry_after), ""),
            OnLimit::Retry { wait_ms }
        );
    }
    delivery.begin_attempt();
    assert_eq!(delivery.on_status(204), OnStatus::ReadBody);
    assert!(delivery.on_body(204, String::new()).is_ok());
}

#[test]
fn cover_upload_sends_raw_base64_jpeg_and_reports_spotify_errors() {
    let request = client().upload_playlist_cover("test-playlist", "/9j/test").unwrap();
    assert_eq!(request.method, Method::Put);
    assert_eq!(request.path, "/playlists/test-playlist/images");
    assert!(matches!(&request.body, Body::Jpeg(encoded) if encoded == "/9j/test"));
    assert_eq!(framing_of(request.method, true, true), Framing::Jpeg);
    for status in [202, 403, 413] {
        let mut delivery = Delivery::new(Method::Put, "/playlists/test-playlist/images");
        delivery.begin_attempt();
        assert_eq!(delivery.on_status(status), OnStatus::ReadBody);
        let result = delivery.on_body(status, String::new());
        if status == 202 {
            assert!(result.is_ok());
        } else {
            assert_eq!(result.unwrap_err().status(), Some(status));
        }
    }
}

#[test]
fn oversized_cover_is_rejected_before_authentication_or_network() {
    let result = client().upload_playlist_cover("test", &"x".repeat(MAX_COVER_PAYLOAD + 1));
    assert_eq!(result.unwrap_err().status(), Some(413));
    assert!(client().upload_playlist_cover("test", &"x".repeat(MAX_COVER_PAYLOAD)).is_ok());
}

#[test]
fn play_request_body_shapes() {
    let context = PlayRequest::context("spotify:album:x").starting_at_uri("spotify:track:y");
    assert_eq!(
        context.body(),
        vec![
            field("context_uri", JsonValue::Scalar(text("spotify:album:x"))),
            field("offset", JsonValue::Object("uri".into(), text("spotify:track:y"))),
        ]
    );
    let tracks = PlayRequest::tracks(vec!["spotify:track:a".into()]).starting_at_index(0);
    assert_eq!(
        tracks.body(),
        vec![
            field("uris", JsonValue::Texts(vec!["spotify:track:a".into()])),
            field("offset", JsonValue::Object("position".into(), Scalar::Number(0))),
        ]
    );
}

#[test]
fn quota_exhaustion_is_distinct_from_an_ordinary_rate_limit() {
    assert!(is_quota_exhausted(
        r#"{"error":{"status":429,"reason":"QUOTA_EXCEEDED"}}"#
    ));
    assert!(!is_quota_exhausted(
        r#"{"error":{"status":429,"message":"Too many requests"}}"#
    ));
}

#[test]
fn cooldown_state_is_owned_by_one_session() {
    let mut shared = ApiClient::new(20, 50, ApiSource::Shared, 0);
    let personal = ApiClient::new(10, 10, ApiSource::Personal, 0);
    shared.cooldown.extend(0, 10_000);
    assert_eq!(shared.cooldown.remaining(0), Some(10_000));
    assert_eq!(personal.cooldown.remaining(0), Some(0));
    assert_eq!(personal.cooldown.remaining(1), None);
}

#[test]
fn a_body_says_what_failed() {
    let error = failed_status(403, r#"{"error":{"status":403,"message":"Insufficient scope"}}"#);
    assert_eq!(error.status(), Some(403));
    assert_eq!(error.message(), "Insufficient scope");
    assert_eq!(failed_status(404, "").message(), "Not Found");
    assert_eq!(failed_status(799, "no json").message(), "request failed");
    assert!(is_quota_reason(&Some("QUOTA_EXCEEDED".into())));
    assert!(!is_quota_reason(&Some("quota_exceeded".into())));
    assert!(!is_quota_reason(&None));
    assert_eq!(choose_failure_text(Some("said".into()), Some("phrase".into())), "said");
    assert_eq!(choose_failure_text(None, Some("phrase".into())), "phrase");
    assert_eq!(choose_failure_text(None, None), "request failed");
}

#[test]
fn a_body_is_read_as_a_whole() {
    let quota = r#"{"error":{"message":"m","reason":"QUOTA_EXCEEDED"}}"#;
    assert!(is_quota_exhausted(quota));
    // A part that is not what it should be leaves nothing to go by.
    assert!(!is_quota_exhausted(r#"{"error":{"message":7,"reason":"QUOTA_EXCEEDED"}}"#));
    assert!(!is_quota_exhausted(r#"{"error":{"message":null,"reason":"QUOTA_EXCEEDED"}}"#));
    assert_eq!(
        failed_status(404, r#"{"error":{"message":"said","reason":7}}"#).message(),
        "Not Found"
    );
    assert_eq!(
        failed_status(404, r#"{"error":{"message":"said","reason":null}}"#).message(),
        "said"
    );
    assert_eq!(failed_status(404, r#"{"error":{"message":""}}"#).message(), "Not Found");
    assert_eq!(
        read_error(JsonPart::Missing, JsonPart::Text("r".into())),
        Some(ErrorBody { message: String::new(), reason: Some("r".into()) })
    );
    assert_eq!(
        read_error(JsonPart::Text("m".into()), JsonPart::Null),
        Some(ErrorBody { message: "m".into(), reason: None })
    );
    assert_eq!(read_error(JsonPart::Null, JsonPart::Missing), None);
    assert_eq!(read_error(JsonPart::Text("m".into()), JsonPart::Other), None);
}

#[test]
fn requests_and_statuses_can_be_copied() {
    let request = ApiRequest::Me;
    assert_eq!(request.clone(), request);
    let play = PlayRequest { uris: vec!["spotify:track:a".into()], ..Default::default() };
    assert_eq!(play.clone(), play);
    for status in [
        AuthStatus::WaitingForBrowser { url: "u".into() },
        AuthStatus::Connected { username: "Listener".into() },
        AuthStatus::Failed("f".into()),
    ] {
        assert_eq!(status.clone(), status);
    }
    for playback in [
        LocalPlayback::Authorizing,
        LocalPlayback::Ready { device_id: "d".into() },
        LocalPlayback::Failed("f".into()),
    ] {
        assert_eq!(playback.clone(), playback);
    }
}

#[test]
fn errors_have_their_sentences() {
    assert_eq!(ApiError::NotSignedIn.message(), "not signed in");
    assert_eq!(
        ApiError::RateLimited.message(),
        "Spotify is rate limiting requests; try again in a moment"
    );
    assert_eq!(
        ApiError::QuotaExhausted.message(),
        "Spotify's Development Mode quota is exhausted; try again after the quota resets"
    );
    assert_eq!(
        ApiError::SignInExpired { api_source: ApiSource::Personal }.message(),
        "your Spotify sign-in expired; please sign in again"
    );
    let network = ApiError::from_transport(false, "refused".into());
    assert_eq!(network.message(), "network error: refused");
    let decode = ApiError::from_transport(true, "bad".into());
    assert_eq!(decode.message(), "unexpected response from Spotify: bad");
    assert_eq!(network.status(), None);
    assert_eq!(network.expired(), None);
    let expired = ApiError::SignInExpired { api_source: ApiSource::Personal };
    assert_eq!(expired.expired(), Some(ApiSource::Personal));
}

#[test]
fn a_refused_token_is_replaced_once() {
    let mut delivery = Delivery::new(Method::Get, "/me");
    delivery.begin_attempt();
    assert_eq!(delivery.on_status(401), OnStatus::RefreshToken);
    delivery.begin_attempt();
    assert_eq!(delivery.on_status(401), OnStatus::ReadBody);
}

#[test]
fn only_reads_are_repeated_after_a_server_error() {
    for (method, expected) in [
        (Method::Get, OnStatus::PauseAndRetry),
        (Method::Put, OnStatus::ReadBody),
        (Method::Post, OnStatus::ReadBody),
        (Method::Delete, OnStatus::ReadBody),
    ] {
        let mut delivery = Delivery::new(method, "/me");
        delivery.begin_attempt();
        assert_eq!(delivery.on_status(503), expected);
    }
    let mut delivery = Delivery::new(Method::Get, "/me");
    delivery.begin_attempt();
    delivery.begin_attempt();
    assert_eq!(delivery.on_status(503), OnStatus::ReadBody);
}

#[test]
fn rate_limits_are_waited_out_a_few_times() {
    let mut delivery = Delivery::new(Method::Get, "/me");
    delivery.begin_attempt();
    assert_eq!(delivery.on_limit(Some("7"), ""), OnLimit::Retry { wait_ms: 7_000 });
    assert_eq!(delivery.on_limit(Some("700"), ""), OnLimit::Retry { wait_ms: 30_000 });
    assert_eq!(delivery.on_limit(None, ""), OnLimit::Retry { wait_ms: 1_000 });
    assert_eq!(delivery.on_limit(Some("soon"), ""), OnLimit::Retry { wait_ms: 1_000 });
    assert_eq!(
        delivery.on_limit(Some("7"), r#"{"error":{"reason":"QUOTA_EXCEEDED"}}"#),
        OnLimit::QuotaExhausted
    );
    delivery.begin_attempt();
    delivery.begin_attempt();
    delivery.begin_attempt();
    assert!(matches!(delivery.on_limit(Some("7"), ""), OnLimit::GiveUp { .. }));
}

#[test]
fn addresses_and_numbers_are_read() {
    assert_eq!(address_of(BASE_URL, "/me"), "https://api.spotify.com/v1/me");
    assert_eq!(
        address_of(BASE_URL, "https://elsewhere.test/page"),
        "https://elsewhere.test/page"
    );
    assert_eq!(read_number("30"), Some(30));
    assert_eq!(read_number("+5"), Some(5));
    assert_eq!(read_number(""), None);
    assert_eq!(read_number("-1"), None);
    assert_eq!(read_number("18446744073709551615"), Some(u64::MAX));
    assert_eq!(read_number("18446744073709551616"), None);
    assert_eq!(framing_of(Method::Post, false, false), Framing::EmptyLength);
    assert_eq!(framing_of(Method::Put, false, true), Framing::Json);
    assert_eq!(framing_of(Method::Get, false, false), Framing::Bare);
}

#[test]
fn answers_are_told_from_nothing() {
    assert_eq!(read_payload("  \n"), Payload::Null);
    assert_eq!(read_payload("\u{3000}"), Payload::Null);
    assert_eq!(read_payload("{}"), Payload::Json);
    for c in '\0'..=char::MAX {
        assert_eq!(is_white(c), c.is_whitespace());
    }
    assert!(!has_optional_payload(" "));
    assert!(has_optional_payload("{}"));
    assert_eq!(snapshot(r#"{"snapshot_id":"abc"}"#), Some("abc".into()));
    assert_eq!(snapshot(r#"{"snapshot_id":7}"#), None);
    assert_eq!(snapshot("not json"), None);
}

#[test]
fn a_cooldown_is_never_shortened() {
    let mut cooldown = Cooldown::new(1_000);
    assert_eq!(cooldown.remaining(1_001), None);
    cooldown.extend(1_000, 5_000);
    cooldown.extend(2_000, 1_000);
    assert_eq!(cooldown.remaining(2_000), Some(4_000));
    assert_eq!(cooldown.remaining(6_001), None);
}

#[test]
fn the_busy_indicator_waits_before_it_shows() {
    let mut activity = NetActivity::default();
    assert!(!activity.busy(1_000, 0));
    activity.begin(1_000);
    activity.begin(1_500);
    assert!(!activity.busy(1_200, 300));
    assert!(activity.busy(1_300, 300));
    activity.end();
    assert!(activity.busy(1_300, 300));
    activity.end();
    assert!(!activity.busy(9_000, 300));
}

#[test]
fn tokens_are_renewed_and_stored_while_they_count() {
    let mut store = Ledger::new();
    let mut tokens = WebTokens::new(token("old"), store.lease(Slot::Personal), ApiSource::Personal);
    assert_eq!(tokens.access_token(&store, true, false).unwrap(), None);
    assert_eq!(tokens.access_token(&store, false, true).unwrap(), None);
    // Before the account was verified nothing is stored.
    let renewal = tokens.renewed(&store, Refresh::Renewed(token("new")), false, true);
    assert_eq!(renewal.answer.unwrap(), "new");
    assert_eq!(renewal.store, None);
    assert_eq!(tokens.remember(&store), Some(token("new")));
    let renewal = tokens.renewed(&store, Refresh::Renewed(token("newer")), false, true);
    assert_eq!(renewal.answer.unwrap(), "newer");
    assert_eq!(renewal.store, Some(token("newer")));
    let renewal = tokens.renewed(&store, Refresh::Rejected, true, false);
    assert!(matches!(
        renewal.answer,
        Err(ApiError::SignInExpired { api_source: ApiSource::Personal })
    ));
    store.invalidate(Slot::Personal);
    let renewal = tokens.renewed(&store, Refresh::Renewed(token("late")), false, true);
    assert!(matches!(renewal.answer, Err(ApiError::SignInExpired { .. })));
    assert_eq!(renewal.store, None);
}

#[test]
fn permissions_are_whole_words() {
    let held = StoredToken { scope: "user-read user-library-read".into(), ..token("t") };
    assert!(held.has_scopes(&vec!["user-read".into(), "user-library-read".into()]));
    assert!(!held.has_scopes(&vec!["user-library".into()]));
    assert!(held.has_scopes(&vec![]));
}

#[test]
fn requests_name_their_path_query_and_body() {
    let client = client();
    let me = client.me();
    assert_eq!((me.method, me.path.as_str()), (Method::Get, "/me"));
    assert!(matches!(me.body, Body::Empty));
    let volume = client.set_volume(130, Some("phone"));
    assert_eq!(query(&volume), vec![("device_id", "phone"), ("volume_percent", "100")]);
    let seek = client.seek(1_500, None);
    assert_eq!(query(&seek), vec![("position_ms", "1500")]);
    let shuffle = client.set_shuffle(true, None);
    assert_eq!(query(&shuffle), vec![("state", "true")]);
    let transfer = client.transfer("phone", false);
    assert!(matches!(&transfer.body, Body::Json(fields) if *fields == vec![
        field("device_ids", JsonValue::Texts(vec!["phone".into()])),
        field("play", JsonValue::Scalar(Scalar::Flag(false))),
    ]));
    let found = client.search("miles davis", &vec!["album".into(), "track".into()]);
    assert_eq!(found.path, "/search");
    assert_eq!(
        query(&found),
        vec![("q", "miles davis"), ("type", "album,track"), ("limit", "20")]
    );
    let albums = client.artist_albums("abc", "album,single", 20, 80);
    assert_eq!(albums.path, "/artists/abc/albums");
    assert_eq!(
        query(&albums),
        vec![("include_groups", "album,single"), ("limit", "50"), ("offset", "20")]
    );
}

#[test]
fn duplicates_are_found_page_by_page() {
    let row = |item: PlayableItem| PlaylistItem { item: Some(item), ..PlaylistItem::default() };
    let track = |uri: &str| PlayableItem::Track(Track { uri: uri.into(), ..Track::default() });
    let (mut walk, more) = DuplicateWalk::new(vec!["a".into(), "b".into(), "c".into()]);
    assert!(more);
    assert_eq!(walk.next_page(&client(), "pl").path, "/playlists/pl/items");
    let first = Page {
        items: vec![row(track("c")), row(track("x"))],
        total: 4,
        limit: 2,
        offset: 0,
        next: Some("next".into()),
    };
    assert!(walk.add_page(&first));
    let episode = PlayableItem::Episode(Episode {
        id: "e".into(),
        name: "E".into(),
        uri: "a".into(),
    });
    let second = Page {
        items: vec![row(episode)],
        total: 4,
        limit: 2,
        offset: 2,
        next: None,
    };
    assert!(!walk.add_page(&second));
    assert_eq!(walk.duplicates(), vec!["a".to_string(), "c".to_string()]);
    assert!(!DuplicateWalk::new(vec![]).1);
    // No page is asked for once every song was found.
    let (mut walk, _) = DuplicateWalk::new(vec!["x".into(), "c".into(), "x".into()]);
    assert!(!walk.add_page(&first));
    assert_eq!(walk.duplicates(), vec!["x".to_string(), "c".into(), "x".into()]);
}

/// A request of a client that is signed in.
fn on_its_way(request: &HttpRequest) -> (Sending, Cooldown) {
    let tokens = WebTokens::new(token("t"), Ledger::new().lease(Slot::Shared), ApiSource::Shared);
    let signed_in = client().for_authorization(TokenProvider::Web(tokens), 0);
    (Sending::start(&signed_in, request).unwrap(), signed_in.cooldown)
}

fn answered(status: u16) -> Happened {
    Happened::Answered { status, retry_after: None }
}

#[test]
fn nobody_sends_without_signing_in() {
    let refused = Sending::start(&client(), &client().me());
    assert!(matches!(refused, Err(ApiError::NotSignedIn)));
}

#[test]
fn a_request_goes_from_its_place_to_its_answer() {
    let (mut sending, mut cooldown) = on_its_way(&client().me());
    assert_eq!(sending.address, "https://api.spotify.com/v1/me");
    assert_eq!(sending.framing, Framing::Bare);
    let mut step = |happened: Happened| sending.step(&mut cooldown, happened, 10);
    assert_eq!(step(Happened::Slept), None, "it waits for a place");
    assert_eq!(step(Happened::Entered), Some(Action::GetToken));
    assert_eq!(
        step(Happened::Token(Ok("t".into()))),
        Some(Action::Send { token: "t".into() })
    );
    assert_eq!(step(answered(200)), Some(Action::ReadBody));
    assert_eq!(
        step(Happened::BodyRead(Ok("{}".into()))),
        Some(Action::Finish(Ok("{}".into())))
    );
    assert_eq!(step(Happened::Entered), None, "it has ended");
}

#[test]
fn a_request_waits_for_its_session() {
    let (mut sending, mut cooldown) = on_its_way(&client().me());
    cooldown.extend(0, 5_000);
    let mut step = |happened: Happened, now: u64| sending.step(&mut cooldown, happened, now);
    assert_eq!(step(Happened::Entered, 1_000), Some(Action::Sleep { ms: 4_000 }));
    assert_eq!(step(Happened::Slept, 5_000), Some(Action::Sleep { ms: 0 }));
    assert_eq!(step(Happened::Slept, 5_001), Some(Action::GetToken));
    let expired = ApiError::SignInExpired { api_source: ApiSource::Shared };
    assert_eq!(
        step(Happened::Token(Err(expired.clone())), 5_001),
        Some(Action::Finish(Err(expired)))
    );
}

#[test]
fn a_request_starts_over_with_a_fresh_token_once() {
    let (mut sending, mut cooldown) = on_its_way(&client().pause(None));
    assert_eq!(sending.framing, Framing::EmptyLength);
    for expected in [Action::DropToken, Action::ReadBody] {
        sending.step(&mut cooldown, Happened::Entered, 10);
        sending.step(&mut cooldown, Happened::Token(Ok("t".into())), 10);
        let refused = answered(401);
        let next = sending.step(&mut cooldown, refused, 10).unwrap();
        assert_eq!(next, expected);
        if next == Action::DropToken {
            let again = sending.step(&mut cooldown, Happened::TokenDropped, 10);
            assert_eq!(again, Some(Action::Enter));
        }
    }
    let end = sending.step(&mut cooldown, Happened::BodyRead(Ok(String::new())), 10);
    assert!(matches!(
        end,
        Some(Action::Finish(Err(ApiError::Status { status: 401, message }))) if message == "Unauthorized"
    ));
}

#[test]
fn a_rate_limit_holds_back_the_whole_session() {
    let (mut sending, mut cooldown) = on_its_way(&client().me());
    for attempt in 1..=4 {
        sending.step(&mut cooldown, Happened::Entered, 1_000_000 * attempt);
        sending.step(&mut cooldown, Happened::Token(Ok("t".into())), 1_000_000 * attempt);
        let limited = Happened::Answered { status: 429, retry_after: Some("90".into()) };
        let next = sending.step(&mut cooldown, limited, 1_000_000 * attempt);
        assert_eq!(next, Some(Action::ReadLimit));
        let read = Happened::LimitRead(String::new());
        let next = sending.step(&mut cooldown, read, 1_000_000 * attempt);
        assert_eq!(cooldown.remaining(1_000_000 * attempt), Some(30_000));
        if attempt < 4 {
            assert_eq!(next, Some(Action::Enter));
        } else {
            assert_eq!(next, Some(Action::Finish(Err(ApiError::RateLimited))));
        }
    }
    let (mut sending, mut cooldown) = on_its_way(&client().me());
    sending.stage = Stage::Limit { retry_after: None };
    let quota = r#"{"error":{"reason":"QUOTA_EXCEEDED"}}"#;
    assert_eq!(
        sending.step(&mut cooldown, Happened::LimitRead(quota.into()), 10),
        Some(Action::Finish(Err(ApiError::QuotaExhausted)))
    );
}

#[test]
fn only_a_read_is_tried_again_after_a_server_error() {
    for (request, expected) in [
        (client().me(), Action::Pause { ms: 800 }),
        (client().pause(None), Action::ReadBody),
    ] {
        let (mut sending, mut cooldown) = on_its_way(&request);
        sending.step(&mut cooldown, Happened::Entered, 10);
        sending.step(&mut cooldown, Happened::Token(Ok("t".into())), 10);
        assert_eq!(sending.step(&mut cooldown, answered(502), 10), Some(expected));
    }
    let (mut sending, mut cooldown) = on_its_way(&client().me());
    assert_eq!(
        sending.step(&mut cooldown, Happened::Closed, 10),
        Some(Action::Finish(Err(ApiError::NotSignedIn)))
    );
}

#[test]
fn an_empty_batch_is_done_at_once() {
    let empty = QueueBatch::new(vec![], None);
    assert!(empty.next_append(&client()).is_none());
    assert_eq!(empty.completed(), Some((0, Ok(()))));
    let mut one = QueueBatch::new(vec!["a".into()], None);
    assert_eq!(one.completed(), None);
    assert_eq!(one.appended(Ok(())), Some((1, Ok(()))));
    assert_eq!(one.completed(), Some((1, Ok(()))));
}
