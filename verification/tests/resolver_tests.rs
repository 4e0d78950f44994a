use tag_autocomplete::errors::AutocompleteError;
use tag_autocomplete::json::serialize_tags;
use tag_autocomplete::resolver::{
    resolve_step, ResolveAction, ResolveEvent, ResolveState, StoreFault,
};
use tag_autocomplete::tag::Tag;

fn tag(id: i32, name: &str, post_count: i32) -> Tag {
    Tag {
        id,
        name: name.to_string(),
        post_count,
        category: 0,
        antecedent_name: None,
    }
}

#[test]
fn short_input_is_rejected_without_any_access() {
    let (state, action) = resolve_step(
        ResolveState::Validating,
        ResolveEvent::Submit { raw: "ab".to_string() },
    );
    assert!(matches!(
        state,
        ResolveState::Rejected { error: AutocompleteError::BadRequest }
    ));
    assert!(matches!(
        action,
        ResolveAction::RespondError { error: AutocompleteError::BadRequest }
    ));
}

#[test]
fn long_input_is_rejected_without_any_access() {
    let raw = "x".repeat(101);
    let (state, action) = resolve_step(ResolveState::Validating, ResolveEvent::Submit { raw });
    assert!(matches!(state, ResolveState::Rejected { .. }));
    assert!(matches!(
        action,
        ResolveAction::RespondError { error: AutocompleteError::BadRequest }
    ));
}

#[test]
fn valid_input_moves_to_cache_check_with_canonical_key() {
    let (state, action) = resolve_step(
        ResolveState::Validating,
        ResolveEvent::Submit { raw: "  Cat Girl*".to_string() },
    );
    match state {
        ResolveState::CacheCheck { key } => assert_eq!(key, "catgirl"),
        _ => panic!("expected the cache-check state"),
    }
    match action {
        ResolveAction::QueryCache { key } => assert_eq!(key, "catgirl"),
        _ => panic!("expected a cache query"),
    }
}

#[test]
fn cache_hit_responds_with_cached_body() {
    let (state, action) = resolve_step(
        ResolveState::CacheCheck { key: "cat".to_string() },
        ResolveEvent::CacheReply { found: Some("[cached]".to_string()) },
    );
    match state {
        ResolveState::Respond { body } => assert_eq!(body, "[cached]"),
        _ => panic!("expected a direct response"),
    }
    match action {
        ResolveAction::RespondBody { body } => assert_eq!(body, "[cached]"),
        _ => panic!("expected a body response, not a store query"),
    }
}

#[test]
fn cache_miss_queries_tier_a_with_escaped_pattern() {
    let (state, action) = resolve_step(
        ResolveState::CacheCheck { key: "fo_o".to_string() },
        ResolveEvent::CacheReply { found: None },
    );
    assert!(matches!(state, ResolveState::StoreLookupA { .. }));
    match action {
        ResolveAction::QueryTierA { pattern } => assert_eq!(pattern, "fo\\_o%"),
        _ => panic!("expected the primary store query"),
    }
}

#[test]
fn tier_a_rows_are_serialized_and_cached() {
    let rows = vec![tag(1, "cat", 10), tag(2, "cap", 5)];
    let body = serialize_tags(&rows);
    let (state, action) = resolve_step(
        ResolveState::StoreLookupA { key: "ca".to_string() },
        ResolveEvent::TierAReply { rows: Ok(rows) },
    );
    match &state {
        ResolveState::CachePopulate { key, records, body: b } => {
            assert_eq!(key, "ca");
            assert_eq!(records.len(), 2);
            assert_eq!(*b, body);
        },
        _ => panic!("expected cache population"),
    }
    match action {
        ResolveAction::WriteCache { key, body: b } => {
            assert_eq!(key, "ca");
            assert_eq!(b, body);
        },
        _ => panic!("expected a cache write"),
    }
}

#[test]
fn empty_tier_a_falls_back_to_tier_b() {
    let (state, action) = resolve_step(
        ResolveState::StoreLookupA { key: "cat".to_string() },
        ResolveEvent::TierAReply { rows: Ok(vec![]) },
    );
    assert!(matches!(state, ResolveState::StoreLookupB { .. }));
    match action {
        ResolveAction::QueryTierB { key } => assert_eq!(key, "cat"),
        _ => panic!("expected the fallback store query"),
    }
}

#[test]
fn tier_b_result_is_taken_exactly() {
    let rows = vec![tag(9, "caterpillar", 3)];
    let expected_body = serialize_tags(&rows);
    let (state, _action) = resolve_step(
        ResolveState::StoreLookupB { key: "cat".to_string() },
        ResolveEvent::TierBReply { rows: Ok(rows) },
    );
    match state {
        ResolveState::CachePopulate { records, body, .. } => {
            assert_eq!(records.len(), 1);
            assert_eq!(records[0].id, 9);
            assert_eq!(records[0].name, "caterpillar");
            assert_eq!(body, expected_body);
        },
        _ => panic!("expected cache population from the fallback rows"),
    }
}

#[test]
fn empty_both_tiers_yield_empty_array_body() {
    let (state, _) = resolve_step(
        ResolveState::StoreLookupA { key: "zzz".to_string() },
        ResolveEvent::TierAReply { rows: Ok(vec![]) },
    );
    let (state, action) = resolve_step(
        state,
        ResolveEvent::TierBReply { rows: Ok(vec![]) },
    );
    match &state {
        ResolveState::CachePopulate { body, .. } => assert_eq!(body, "[]"),
        _ => panic!("expected cache population"),
    }
    match action {
        ResolveAction::WriteCache { key, body } => {
            assert_eq!(key, "zzz");
            assert_eq!(body, "[]");
        },
        _ => panic!("expected the empty result to be cached"),
    }
    let (state, action) = resolve_step(state, ResolveEvent::CacheWritten);
    assert!(matches!(state, ResolveState::Respond { .. }));
    match action {
        ResolveAction::RespondBody { body } => assert_eq!(body, "[]"),
        _ => panic!("expected a success response"),
    }
}

#[test]
fn pool_and_query_faults_fail_the_request() {
    for fault in [StoreFault::PoolUnavailable, StoreFault::QueryFailed] {
        let (state, action) = resolve_step(
            ResolveState::StoreLookupA { key: "cat".to_string() },
            ResolveEvent::TierAReply { rows: Err(fault) },
        );
        assert!(matches!(
            state,
            ResolveState::Failed { error: AutocompleteError::ServerError }
        ));
        assert!(matches!(
            action,
            ResolveAction::RespondError { error: AutocompleteError::ServerError }
        ));
    }
    let (state, _) = resolve_step(
        ResolveState::StoreLookupB { key: "cat".to_string() },
        ResolveEvent::TierBReply { rows: Err(StoreFault::QueryFailed) },
    );
    assert!(matches!(state, ResolveState::Failed { .. }));
}

#[test]
fn error_responses_are_fixed() {
    assert_eq!(AutocompleteError::BadRequest.status_code(), 400);
    assert_eq!(AutocompleteError::ServerError.status_code(), 500);
    assert_eq!(AutocompleteError::BadRequest.error_body(), "{\"error\":\"bad request\"}");
    assert_eq!(AutocompleteError::ServerError.error_body(), "{\"error\":\"internal error\"}");
}
