use spotifast::album_types::{AlbumTypeLookup, AlbumTypeRequest, MAX_PENDING_ALBUM_TYPES};

#[test]
fn signed_out_requests_are_dropped_and_valid_pending_work_is_deduplicated() {
    let mut lookup = AlbumTypeLookup::default();
    lookup.enqueue(false, None, vec!["signed-out".into()]);
    assert!(lookup.pending.is_empty());

    lookup.enqueue(
        true,
        None,
        vec!["first".into(), "first".into(), "second".into()],
    );
    assert_eq!(lookup.pending.len(), 2);

    let first = lookup.next().expect("first request when an engine appears");
    assert_eq!(first.uri, "first");
    assert!(lookup.next().is_none(), "only one lookup may be active");
    assert!(lookup.finish(&first));
    assert_eq!(lookup.next().expect("remaining request").uri, "second");
}

#[test]
fn results_from_a_signed_out_session_are_rejected_after_a_new_session_starts() {
    let mut lookup = AlbumTypeLookup::default();
    lookup.enqueue(true, None, vec!["old".into()]);
    let old = lookup.next().expect("old session request");

    lookup.reset_session();
    assert!(!lookup.finish(&old));
    lookup.enqueue(false, None, vec!["after-logout".into()]);
    assert!(lookup.pending.is_empty());

    lookup.enqueue(true, None, vec!["new".into()]);
    let new = lookup.next().expect("new session request");
    assert_ne!(old.session_generation, new.session_generation);
    assert!(!lookup.finish(&old));
    assert!(lookup.finish(&new));
}

#[test]
fn reconnect_requeues_active_work_for_the_new_engine() {
    let mut lookup = AlbumTypeLookup::default();
    lookup.enqueue(true, None, vec!["active".into(), "waiting".into()]);
    let retired = lookup.next().expect("retired engine request");

    lookup.requeue_active_for_new_engine();
    assert_eq!(lookup.pending.front().map(String::as_str), Some("active"));

    lookup.enqueue(true, None, vec!["active".into()]);
    assert_eq!(lookup.pending.len(), 2, "external duplicates stay ignored");

    let replacement = lookup.next().expect("new engine request");
    assert_eq!(replacement.uri, "active");
    assert_eq!(retired.session_generation, replacement.session_generation);
    assert_ne!(retired.engine_generation, replacement.engine_generation);
    assert!(!lookup.finish(&retired));
    assert_eq!(lookup.active.as_ref(), Some(&replacement));
    assert!(lookup.finish(&replacement));
    assert_eq!(lookup.next().expect("remaining request").uri, "waiting");
}

#[test]
fn completed_failures_remain_terminal_for_the_session() {
    let mut lookup = AlbumTypeLookup::default();

    for uri in ["error", "timeout"] {
        lookup.enqueue(true, None, vec![uri.into()]);
        let request = lookup.next().expect("request before failure");
        assert!(lookup.finish(&request));

        lookup.enqueue(true, None, vec![uri.into()]);
        assert!(lookup.pending.is_empty(), "failed request must not retry");
    }
}

#[test]
fn non_premium_status_clears_and_invalidates_all_engine_work() {
    let mut lookup = AlbumTypeLookup::default();
    lookup.enqueue(true, None, vec!["active".into(), "pending".into()]);
    let active = lookup.next().expect("request before account check");
    let session_generation = lookup.session_generation;

    lookup.clear_engine_work();

    assert_eq!(lookup.session_generation, session_generation);
    assert_ne!(lookup.engine_generation, active.engine_generation);
    assert!(lookup.active.is_none());
    assert!(lookup.pending.is_empty());
    assert!(lookup.seen.is_empty());
    assert!(!lookup.finish(&active));

    lookup.enqueue(true, Some(false), vec!["after-check".into()]);
    assert!(lookup.pending.is_empty());
    assert!(lookup.seen.is_empty());
}

#[test]
fn unknown_and_premium_accounts_accept_album_type_work() {
    let mut lookup = AlbumTypeLookup::default();

    lookup.enqueue(true, None, vec!["unknown".into()]);
    let unknown = lookup.next().expect("unknown account request");
    assert_eq!(unknown.uri, "unknown");
    assert!(lookup.finish(&unknown));

    lookup.enqueue(true, Some(true), vec!["premium".into()]);
    let premium = lookup.next().expect("premium account request");
    assert_eq!(premium.uri, "premium");
    assert!(lookup.finish(&premium));
}

#[test]
fn album_type_work_never_exceeds_one_page() {
    let mut lookup = AlbumTypeLookup::default();
    lookup.enqueue(true, None, vec!["active".into()]);
    assert!(lookup.next().is_some());
    let many: Vec<String> = (0..80).map(|index| format!("album-{index}")).collect();
    lookup.enqueue(true, None, many);
    assert_eq!(lookup.pending.len(), MAX_PENDING_ALBUM_TYPES - 1);
    assert_eq!(lookup.seen.len(), MAX_PENDING_ALBUM_TYPES);
    assert_eq!(lookup.pending.front().map(String::as_str), Some("album-0"));
    assert_eq!(lookup.pending.back().map(String::as_str), Some("album-48"));
}

#[test]
fn generations_wrap_around() {
    let mut lookup = AlbumTypeLookup::default();
    lookup.session_generation = u64::MAX;
    lookup.engine_generation = u64::MAX;
    lookup.reset_session();
    assert_eq!(lookup.session_generation, 0);
    assert_eq!(lookup.engine_generation, 0);
    lookup.retire_engine();
    assert_eq!(lookup.engine_generation, 1);
}

#[test]
fn an_answer_must_match_in_every_part() {
    let mut lookup = AlbumTypeLookup::default();
    lookup.enqueue(true, None, vec!["one".into()]);
    let active = lookup.next().expect("a lookup");
    let other = AlbumTypeRequest { uri: "two".into(), ..active.clone() };
    assert!(!lookup.finish(&other));
    let later = AlbumTypeRequest { engine_generation: 9, ..active.clone() };
    assert!(!lookup.finish(&later));
    assert!(lookup.finish(&active));
    assert!(!lookup.finish(&active));
}
