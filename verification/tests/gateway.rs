use engine_router::errors::GatewayError;
use engine_router::gateway::{
    error_response, prepare_session, route_decision, wrap_outcome, GatewayRequest, HandlerOutcome,
    RouteKind,
};
use engine_router::resolve::{WorkspaceRecord, WorkspaceStore};
use engine_router::subject::{create_workspaces_subject, WorkspacesAction};

fn uuid_value(text: &str) -> u128 {
    uuid::Uuid::parse_str(text).unwrap().as_u128()
}

const LIVE_ID: &str = "550e8400-e29b-41d4-a716-446655440000";
const DELETED_ID: &str = "67e55044-10b1-426f-9247-bb680e5fe0c8";
const UNKNOWN_ID: &str = "00000000-0000-0000-0000-00000000beef";

fn sample_store() -> WorkspaceStore {
    WorkspaceStore {
        records: vec![
            WorkspaceRecord {
                id: uuid_value(LIVE_ID),
                name: String::from("acme"),
                deleted: false,
            },
            WorkspaceRecord {
                id: uuid_value(DELETED_ID),
                name: String::from("ghost"),
                deleted: true,
            },
        ],
    }
}

fn bridge_request(id: Option<&str>, name: Option<&str>) -> GatewayRequest {
    GatewayRequest {
        method: String::from("GET"),
        path: String::from("/r/orders"),
        workspace_id_header: id.map(String::from),
        workspace_name_header: name.map(String::from),
        headers: vec![(b"accept".to_vec(), b"*/*".to_vec())],
        body: b"payload".to_vec(),
    }
}

#[test]
fn missing_tenant_headers_fail_with_invalid_tenant() {
    let store = sample_store();
    let r = store.resolve(None, None);
    assert_eq!(r, Err(GatewayError::InvalidTenant));

    let outcome = prepare_session(&store, bridge_request(None, None));
    match outcome {
        Err(e) => {
            let resp = error_response(&e);
            assert_eq!(resp.status, 400);
            assert_eq!(resp.body, b"{\"code\":\"InvalidTenant\"}".to_vec());
        }
        Ok(_) => panic!("a request without tenant headers must not produce a plan"),
    }
}

#[test]
fn garbage_id_header_fails_with_invalid_tenant() {
    let store = sample_store();
    assert_eq!(
        store.resolve(Some("not-a-uuid"), None),
        Err(GatewayError::InvalidTenant)
    );
}

#[test]
fn unknown_id_header_fails_with_invalid_tenant() {
    let store = sample_store();
    assert_eq!(
        store.resolve(Some(UNKNOWN_ID), None),
        Err(GatewayError::InvalidTenant)
    );
}

#[test]
fn soft_deleted_id_header_fails_with_invalid_tenant() {
    let store = sample_store();
    assert_eq!(
        store.resolve(Some(DELETED_ID), None),
        Err(GatewayError::InvalidTenant)
    );
}

#[test]
fn id_header_takes_priority_and_no_name_fallback() {
    let store = sample_store();
    // A dead id does not fall back to a perfectly good name.
    assert_eq!(
        store.resolve(Some(DELETED_ID), Some("acme")),
        Err(GatewayError::InvalidTenant)
    );
    // A live id wins and is returned as given.
    assert_eq!(
        store.resolve(Some(LIVE_ID), Some("ghost")),
        Ok(String::from(LIVE_ID))
    );
}

#[test]
fn name_header_resolves_to_canonical_id_not_name() {
    let store = sample_store();
    let r = store.resolve(None, Some("acme")).unwrap();
    assert_eq!(r, LIVE_ID.to_string());
    assert_ne!(r, "acme");
}

#[test]
fn name_lookup_skips_deleted_and_takes_first_live() {
    let first_live = "11111111-2222-3333-4444-555555555555";
    let second_live = "99999999-8888-7777-6666-555555555555";
    let store = WorkspaceStore {
        records: vec![
            WorkspaceRecord {
                id: uuid_value(DELETED_ID),
                name: String::from("acme"),
                deleted: true,
            },
            WorkspaceRecord {
                id: uuid_value(first_live),
                name: String::from("acme"),
                deleted: false,
            },
            WorkspaceRecord {
                id: uuid_value(second_live),
                name: String::from("acme"),
                deleted: false,
            },
        ],
    };
    assert_eq!(
        store.resolve(None, Some("acme")),
        Ok(String::from(first_live))
    );
}

#[test]
fn deleted_name_does_not_resolve() {
    let store = sample_store();
    assert_eq!(
        store.resolve(None, Some("ghost")),
        Err(GatewayError::InvalidTenant)
    );
}

#[test]
fn subject_is_namespaced_by_resolved_id() {
    let store = sample_store();
    let plan = prepare_session(&store, bridge_request(None, Some("acme"))).unwrap();
    assert_eq!(plan.workspace_id, LIVE_ID.to_string());
    assert_eq!(plan.subject, format!("{}.run_surl", LIVE_ID));
    assert!(!plan.subject.contains("acme"));
}

#[test]
fn session_addresses_are_fresh_tokens() {
    let store = sample_store();
    let plan = prepare_session(&store, bridge_request(Some(LIVE_ID), None)).unwrap();
    for address in [
        &plan.subjects.directives,
        &plan.subjects.request_body,
        &plan.subjects.response_body,
    ] {
        assert_eq!(address.len(), 22);
        assert!(address.chars().all(|c| c.is_ascii_alphanumeric()));
    }
    assert_ne!(plan.subjects.directives, plan.subjects.request_body);
    assert_ne!(plan.subjects.directives, plan.subjects.response_body);
    assert_ne!(plan.subjects.request_body, plan.subjects.response_body);
}

#[test]
fn control_headers_carry_id_path_and_addresses() {
    let store = sample_store();
    let plan = prepare_session(&store, bridge_request(Some(LIVE_ID), None)).unwrap();
    let h = &plan.nats_headers;
    assert_eq!(h.len(), 5);
    assert_eq!(h[0], ("workspace-id".to_string(), LIVE_ID.to_string()));
    assert_eq!(h[1], ("url-path".to_string(), "/r/orders".to_string()));
    assert_eq!(
        h[2],
        (
            "directives-subject".to_string(),
            plan.subjects.directives.clone()
        )
    );
    assert_eq!(
        h[3],
        (
            "request-body-subject".to_string(),
            plan.subjects.request_body.clone()
        )
    );
    assert_eq!(
        h[4],
        (
            "response-body-subject".to_string(),
            plan.subjects.response_body.clone()
        )
    );
}

#[test]
fn unrouted_path_fails_with_not_found() {
    let store = sample_store();
    let mut req = bridge_request(Some(LIVE_ID), None);
    req.path = String::from("/about/us");
    assert!(matches!(
        prepare_session(&store, req),
        Err(GatewayError::NotFound)
    ));
}

#[test]
fn route_decision_cases() {
    assert_eq!(route_decision("/r/orders"), RouteKind::Bridge);
    assert_eq!(route_decision("/r/"), RouteKind::Bridge);
    assert_eq!(
        route_decision("/2/system/load/prometheus/index.css"),
        RouteKind::Bridge
    );
    assert_eq!(route_decision("/42"), RouteKind::Bridge);
    assert_eq!(route_decision("/about"), RouteKind::NotFound);
    assert_eq!(route_decision("/"), RouteKind::NotFound);
    assert_eq!(route_decision(""), RouteKind::NotFound);
    assert_eq!(route_decision("/4x2"), RouteKind::NotFound);
    assert_eq!(route_decision("//2"), RouteKind::NotFound);
    assert_eq!(route_decision("r/orders"), RouteKind::NotFound);
}

#[test]
fn empty_tenant_makes_no_subject() {
    assert!(create_workspaces_subject("", WorkspacesAction::RunSurl, None).is_none());
}

#[test]
fn subject_with_correlation_suffix() {
    let s = create_workspaces_subject("tenant1", WorkspacesAction::RunSurl, Some("abc")).unwrap();
    assert_eq!(s, "tenant1.run_surl.abc");
}

#[test]
fn error_statuses_and_bodies() {
    let cases = [
        (GatewayError::InvalidTenant, 400, "{\"code\":\"InvalidTenant\"}"),
        (GatewayError::NotFound, 404, "{\"code\":\"NotFound\"}"),
        (GatewayError::InternalError, 500, "{\"code\":\"InternalError\"}"),
        (
            GatewayError::GatewayTimeout,
            504,
            "{\"code\":\"GatewayTimeout\"}",
        ),
    ];
    for (e, status, body) in cases {
        assert_eq!(e.status_code(), status);
        assert_eq!(e.error_json(), body);
        let resp = error_response(&e);
        assert_eq!(resp.status, status);
        assert_eq!(resp.body, body.as_bytes().to_vec());
        assert!(resp.headers.is_empty());
    }
}

#[test]
fn panic_outcome_becomes_internal_error_response() {
    let resp = wrap_outcome(HandlerOutcome::Panicked);
    assert_eq!(resp.status, 500);
    assert_eq!(resp.body, b"{\"code\":\"InternalError\"}".to_vec());
}

#[test]
fn typed_failure_outcome_keeps_its_classification() {
    let resp = wrap_outcome(HandlerOutcome::Failure(GatewayError::GatewayTimeout));
    assert_eq!(resp.status, 504);
    assert_eq!(resp.body, b"{\"code\":\"GatewayTimeout\"}".to_vec());
}

#[test]
fn success_outcome_passes_through() {
    let inner = engine_router::envelope::ResponseEnvelope {
        status: 201,
        headers: vec![(b"x".to_vec(), b"y".to_vec())],
        body: b"made".to_vec(),
    };
    let resp = wrap_outcome(HandlerOutcome::Success(inner));
    assert_eq!(resp.status, 201);
    assert_eq!(resp.body, b"made".to_vec());
    assert_eq!(resp.headers, vec![(b"x".to_vec(), b"y".to_vec())]);
}
