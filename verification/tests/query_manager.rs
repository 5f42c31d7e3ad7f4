use qoredb::commands::query::{
    finish_query, no_active_query, resolve_cancel_target, start_query, CancelRefusal, QueryOutcome,
};
use qoredb::engine::error::EngineError;
use qoredb::engine::ids::{QueryId, SessionId};
use qoredb::engine::query_manager::QueryManager;
use qoredb::engine::value::QueryResult;

#[test]
fn registers_and_finishes_queries() {
    let mut manager = QueryManager::new();
    let session = SessionId::new();
    let query_id = manager.register(session);

    assert!(manager.contains(query_id));
    assert_eq!(manager.session_for(query_id), Some(session));
    assert_eq!(manager.last_for_session(session), Some(query_id));

    manager.finish(query_id);
    assert!(!manager.contains(query_id));
}

#[test]
fn rejects_duplicate_query_id() {
    let mut manager = QueryManager::new();
    let session = SessionId::new();
    let query_id = QueryId::new();

    manager
        .register_with_id(session, query_id)
        .expect("first registration should succeed");

    let err = manager
        .register_with_id(session, query_id)
        .expect_err("duplicate should fail");

    assert!(err.contains("already"));
}

#[test]
fn duplicate_registration_leaves_first_intact() {
    let mut manager = QueryManager::new();
    let first = SessionId(1);
    let second = SessionId(2);
    let query = QueryId(77);

    assert_eq!(manager.register_with_id(first, query), Ok(query));
    assert_eq!(
        manager.register_with_id(second, query),
        Err("Query ID already registered".to_string())
    );
    assert_eq!(manager.session_for(query), Some(first));
    assert_eq!(manager.last_for_session(first), Some(query));
    assert_eq!(manager.last_for_session(second), None);
}

#[test]
fn finish_removes_query_and_last_marker() {
    let mut manager = QueryManager::new();
    let session = SessionId(9);
    let q1 = QueryId(1);
    let q2 = QueryId(2);
    manager.register_with_id(session, q1).unwrap();
    manager.register_with_id(session, q2).unwrap();
    assert_eq!(manager.last_for_session(session), Some(q2));

    // Finishing an older query leaves the last one in place.
    manager.finish(q1);
    assert!(!manager.contains(q1));
    assert_eq!(manager.session_for(q1), None);
    assert_eq!(manager.last_for_session(session), Some(q2));

    // Finishing the last query clears the marker.
    manager.finish(q2);
    assert!(!manager.contains(q2));
    assert_eq!(manager.last_for_session(session), None);

    // Finishing an unknown query changes nothing.
    manager.finish(QueryId(3));
    assert!(!manager.contains(QueryId(3)));
}

#[test]
fn finishing_last_query_does_not_fall_back_to_older_one() {
    let mut manager = QueryManager::new();
    let session = SessionId(5);
    manager.register_with_id(session, QueryId(1)).unwrap();
    manager.register_with_id(session, QueryId(2)).unwrap();
    manager.finish(QueryId(2));
    assert!(manager.contains(QueryId(1)));
    assert_eq!(manager.last_for_session(session), None);
}

#[test]
fn sessions_are_tracked_independently() {
    let mut manager = QueryManager::new();
    manager.register_with_id(SessionId(1), QueryId(10)).unwrap();
    manager.register_with_id(SessionId(2), QueryId(20)).unwrap();
    assert_eq!(manager.session_for(QueryId(10)), Some(SessionId(1)));
    assert_eq!(manager.session_for(QueryId(20)), Some(SessionId(2)));
    manager.finish(QueryId(10));
    assert_eq!(manager.last_for_session(SessionId(1)), None);
    assert_eq!(manager.last_for_session(SessionId(2)), Some(QueryId(20)));
}

#[test]
fn fresh_identifiers_differ() {
    let a = QueryId::new();
    let b = QueryId::new();
    assert_ne!(a, b);
    let s = SessionId::new();
    let t = SessionId::new();
    assert_ne!(s, t);
    // Version 4, variant 1.
    assert_eq!((a.0 >> 76) & 0xf, 4);
    assert_eq!((a.0 >> 62) & 0x3, 2);
}

#[test]
fn identifier_text_is_hyphenated_lower_hex() {
    let id = SessionId(0xa1a2a3a4_b1b2_c1c2_d1d2_d3d4d5d6d7d8);
    assert_eq!(id.to_string(), "a1a2a3a4-b1b2-c1c2-d1d2-d3d4d5d6d7d8");
    assert_eq!(QueryId(0).to_string(), "00000000-0000-0000-0000-000000000000");
    assert_eq!(QueryId(1).to_string(), "00000000-0000-0000-0000-000000000001");
    assert_eq!(QueryId(u128::MAX).to_string(), "ffffffff-ffff-ffff-ffff-ffffffffffff");
}

#[test]
fn identifier_parses_from_text() {
    let id = SessionId::parse("a1a2a3a4-b1b2-c1c2-d1d2-d3d4d5d6d7d8").unwrap();
    assert_eq!(id, SessionId(0xa1a2a3a4_b1b2_c1c2_d1d2_d3d4d5d6d7d8));
    // The written form reads back.
    let q = QueryId::new();
    assert_eq!(QueryId::parse(&q.to_string()), Ok(q));
}

#[test]
fn unreadable_identifier_is_refused_with_prefix() {
    let err = SessionId::parse("not-a-uuid").unwrap_err();
    assert!(err.starts_with("Invalid session ID: "), "{}", err);
    assert!(err.len() > "Invalid session ID: ".len());
    let err = QueryId::parse("").unwrap_err();
    assert!(err.starts_with("Invalid query ID: "), "{}", err);
}

#[test]
fn start_query_registers_requested_identifier() {
    let mut manager = QueryManager::new();
    let session = SessionId(3);
    let id = start_query(
        &mut manager,
        session,
        Some("00000000-0000-0000-0000-00000000002a"),
    )
    .unwrap();
    assert_eq!(id, QueryId(42));
    assert!(manager.contains(id));
    assert_eq!(manager.session_for(id), Some(session));

    let err = start_query(
        &mut manager,
        session,
        Some("00000000-0000-0000-0000-00000000002a"),
    )
    .unwrap_err();
    assert_eq!(err, "Failed to register query ID: Query ID already registered");

    let err = start_query(&mut manager, session, Some("zz")).unwrap_err();
    assert!(err.starts_with("Invalid query ID: "));
    assert_eq!(manager.last_for_session(session), Some(QueryId(42)));
}

#[test]
fn start_query_mints_identifier_when_none_requested() {
    let mut manager = QueryManager::new();
    let session = SessionId(3);
    let id = start_query(&mut manager, session, None).unwrap();
    assert!(manager.contains(id));
    assert_eq!(manager.last_for_session(session), Some(id));
}

#[test]
fn finish_query_reports_success_with_elapsed_time() {
    let mut manager = QueryManager::new();
    let session = SessionId(3);
    let id = start_query(&mut manager, session, None).unwrap();
    let response = finish_query(
        &mut manager,
        id,
        QueryOutcome::Completed(Ok(QueryResult::with_affected_rows(4, 0))),
        1500,
    );
    assert!(response.success);
    assert_eq!(response.error, None);
    assert_eq!(response.query_id, Some(id.to_string()));
    let result = response.result.unwrap();
    assert_eq!(result.affected_rows, Some(4));
    assert_eq!(result.execution_time_us, 1500);
    assert!(!manager.contains(id));
}

#[test]
fn finish_query_reports_failure_and_timeout() {
    let mut manager = QueryManager::new();
    let session = SessionId(3);
    let id = start_query(&mut manager, session, None).unwrap();
    let response = finish_query(
        &mut manager,
        id,
        QueryOutcome::Completed(Err(EngineError::execution_error("relation \"t\" does not exist"))),
        10,
    );
    assert!(!response.success);
    assert!(response.result.is_none());
    assert_eq!(
        response.error.as_deref(),
        Some("Execution error: relation \"t\" does not exist")
    );
    assert_eq!(response.query_id, Some(id.to_string()));

    let id = start_query(&mut manager, session, None).unwrap();
    let response = finish_query(&mut manager, id, QueryOutcome::TimedOut { timeout_ms: 2500 }, 0);
    assert!(!response.success);
    assert_eq!(response.error.as_deref(), Some("Operation timed out after 2500ms"));
    assert_eq!(response.query_id, Some(id.to_string()));
    assert!(!manager.contains(id));
}

#[test]
fn cancel_by_implicit_last_query_targets_second_registration() {
    let mut manager = QueryManager::new();
    let session = SessionId(11);
    let q1 = manager.register(session);
    let q2 = manager.register(session);
    assert_ne!(q1, q2);
    match resolve_cancel_target(&manager, session, None) {
        Ok(target) => assert_eq!(target, q2),
        Err(_) => panic!("a target was expected"),
    }
}

#[test]
fn cancel_target_follows_explicit_identifier() {
    let manager = QueryManager::new();
    let session = SessionId(11);
    match resolve_cancel_target(&manager, session, Some("00000000-0000-0000-0000-000000000007")) {
        Ok(target) => assert_eq!(target, QueryId(7)),
        Err(_) => panic!("a target was expected"),
    }
    match resolve_cancel_target(&manager, session, Some("seven")) {
        Err(CancelRefusal::InvalidId(m)) => assert!(m.starts_with("Invalid query ID: ")),
        _ => panic!("an unreadable identifier was expected"),
    }
    match resolve_cancel_target(&manager, session, None) {
        Err(CancelRefusal::NoActiveQuery) => {}
        _ => panic!("no target was expected"),
    }
    let response = no_active_query();
    assert!(!response.success);
    assert_eq!(response.error.as_deref(), Some("No active query found"));
    assert_eq!(response.query_id, None);
}
