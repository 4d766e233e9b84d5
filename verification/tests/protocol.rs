use engine_router::codec::{decode_request, decode_response, encode_request, encode_response};
use engine_router::envelope::{RequestEnvelope, ResponseEnvelope};
use engine_router::errors::GatewayError;
use engine_router::gateway::{prepare_session, GatewayRequest};
use engine_router::resolve::{WorkspaceRecord, WorkspaceStore};
use engine_router::session::{
    DirectiveSignals, Session, SessionAction, SessionEvent, SessionState,
};

fn sample_request() -> RequestEnvelope {
    RequestEnvelope {
        method: b"GET".to_vec(),
        path: b"/r/orders".to_vec(),
        headers: vec![
            (b"accept".to_vec(), b"*/*".to_vec()),
            (b"x-empty".to_vec(), b"".to_vec()),
        ],
        body: b"hello body".to_vec(),
    }
}

fn sample_response() -> ResponseEnvelope {
    ResponseEnvelope {
        status: 200,
        headers: vec![(b"content-type".to_vec(), b"text/plain".to_vec())],
        body: b"ok".to_vec(),
    }
}

fn assert_request_eq(a: &RequestEnvelope, b: &RequestEnvelope) {
    assert_eq!(a.method, b.method);
    assert_eq!(a.path, b.path);
    assert_eq!(a.headers, b.headers);
    assert_eq!(a.body, b.body);
}

#[test]
fn request_envelope_round_trip() {
    let e = sample_request();
    let bytes = encode_request(&e);
    let d = decode_request(&bytes).expect("an encoded envelope must decode");
    assert_request_eq(&d, &e);
}

#[test]
fn empty_request_envelope_round_trip() {
    let e = RequestEnvelope {
        method: Vec::new(),
        path: Vec::new(),
        headers: Vec::new(),
        body: Vec::new(),
    };
    let bytes = encode_request(&e);
    let d = decode_request(&bytes).expect("an encoded envelope must decode");
    assert_request_eq(&d, &e);
}

#[test]
fn response_envelope_round_trip() {
    let e = sample_response();
    let bytes = encode_response(&e);
    let d = decode_response(&bytes).expect("an encoded envelope must decode");
    assert_eq!(d.status, e.status);
    assert_eq!(d.headers, e.headers);
    assert_eq!(d.body, e.body);
}

#[test]
fn encoded_layout_is_length_prefixed_little_endian() {
    let e = ResponseEnvelope {
        status: 504,
        headers: Vec::new(),
        body: b"ok".to_vec(),
    };
    let bytes = encode_response(&e);
    let mut expected: Vec<u8> = Vec::new();
    expected.extend_from_slice(&504u16.to_le_bytes());
    expected.extend_from_slice(&0u64.to_le_bytes());
    expected.extend_from_slice(&2u64.to_le_bytes());
    expected.extend_from_slice(b"ok");
    assert_eq!(bytes, expected);
}

#[test]
fn truncated_bytes_do_not_decode() {
    let bytes = encode_response(&sample_response());
    for cut in 0..bytes.len() {
        assert!(decode_response(&bytes[..cut].to_vec()).is_none());
    }
    assert!(decode_request(&Vec::new()).is_none());
}

#[test]
fn trailing_garbage_does_not_decode() {
    let mut bytes = encode_request(&sample_request());
    bytes.push(0);
    assert!(decode_request(&bytes).is_none());
}

fn drive_to_awaiting(session: &mut Session) {
    assert_eq!(session.step(SessionEvent::SubscribeOk), SessionAction::PublishRequest);
    assert_eq!(session.step(SessionEvent::PublishOk), SessionAction::Continue);
    assert_eq!(session.state, SessionState::AwaitingDirective);
}

const NEED_BODY: SessionEvent = SessionEvent::Directive(DirectiveSignals {
    need_request_body: true,
    sending_response_body: false,
});
const SENDING_RESPONSE: SessionEvent = SessionEvent::Directive(DirectiveSignals {
    need_request_body: false,
    sending_response_body: true,
});

#[test]
fn subscriptions_precede_publish_instruction() {
    let mut session = Session::new();
    assert!(!session.subscribed);
    let a = session.step(SessionEvent::SubscribeOk);
    // The publish instruction arrives only on the step that confirms the
    // subscriptions, so they are live before the envelope goes out.
    assert_eq!(a, SessionAction::PublishRequest);
    assert!(session.subscribed);
}

#[test]
fn directive_right_after_publish_ack_is_not_lost() {
    let mut session = Session::new();
    drive_to_awaiting(&mut session);
    assert_eq!(session.step(SENDING_RESPONSE), SessionAction::ReadResponse);
    assert_eq!(session.state, SessionState::ReceivingResponseBody);
}

#[test]
fn need_request_body_is_actioned_at_most_once() {
    let mut session = Session::new();
    drive_to_awaiting(&mut session);
    assert_eq!(session.step(NEED_BODY), SessionAction::PublishRequestBody);
    assert_eq!(session.step(SessionEvent::BodyPublishOk), SessionAction::Continue);
    // The duplicate directive is a no-op.
    assert_eq!(session.step(NEED_BODY), SessionAction::Continue);
    assert_eq!(session.state, SessionState::AwaitingDirective);
    assert!(session.body_sent);
}

#[test]
fn timeout_fails_with_gateway_timeout_and_drops_subscriptions() {
    let mut session = Session::new();
    drive_to_awaiting(&mut session);
    assert_eq!(session.step(SessionEvent::TimedOut), SessionAction::Abort);
    assert_eq!(session.state, SessionState::Failed(GatewayError::GatewayTimeout));
    assert!(!session.subscribed);
}

#[test]
fn channel_close_fails_with_internal_error() {
    let mut session = Session::new();
    drive_to_awaiting(&mut session);
    assert_eq!(session.step(SessionEvent::ChannelClosed), SessionAction::Abort);
    assert_eq!(session.state, SessionState::Failed(GatewayError::InternalError));
    assert!(!session.subscribed);
}

#[test]
fn need_request_body_after_response_started_is_a_violation() {
    let mut session = Session::new();
    drive_to_awaiting(&mut session);
    assert_eq!(session.step(SENDING_RESPONSE), SessionAction::ReadResponse);
    assert_eq!(session.step(NEED_BODY), SessionAction::Abort);
    assert_eq!(session.state, SessionState::Failed(GatewayError::InternalError));
}

#[test]
fn undecodable_response_bytes_fail_the_session() {
    let mut session = Session::new();
    drive_to_awaiting(&mut session);
    assert_eq!(session.step(SENDING_RESPONSE), SessionAction::ReadResponse);
    let r = session.finish_response(&b"garbage".to_vec());
    assert!(matches!(r, Err(GatewayError::InternalError)));
    assert_eq!(session.state, SessionState::Failed(GatewayError::InternalError));
    assert!(!session.subscribed);
}

const LIVE_ID: &str = "550e8400-e29b-41d4-a716-446655440000";

fn live_store() -> WorkspaceStore {
    WorkspaceStore {
        records: vec![WorkspaceRecord {
            id: uuid::Uuid::parse_str(LIVE_ID).unwrap().as_u128(),
            name: String::from("acme"),
            deleted: false,
        }],
    }
}

#[test]
fn end_to_end_bridged_request_succeeds() {
    // GET /r/orders with a valid workspace-id header resolves, publishes to
    // the id-namespaced subject, and assembles the streamed response.
    let store = live_store();
    let req = GatewayRequest {
        method: String::from("GET"),
        path: String::from("/r/orders"),
        workspace_id_header: Some(String::from(LIVE_ID)),
        workspace_name_header: None,
        headers: Vec::new(),
        body: Vec::new(),
    };
    let plan = prepare_session(&store, req).expect("a valid tenant must produce a plan");
    assert_eq!(plan.subject, format!("{}.run_surl", LIVE_ID));
    let published = decode_request(&plan.payload).expect("the published payload must decode");
    assert_eq!(published.method, b"GET".to_vec());
    assert_eq!(published.path, b"/r/orders".to_vec());

    let mut session = Session::new();
    assert_eq!(session.step(SessionEvent::SubscribeOk), SessionAction::PublishRequest);
    assert_eq!(session.step(SessionEvent::PublishOk), SessionAction::Continue);
    assert_eq!(session.step(SENDING_RESPONSE), SessionAction::ReadResponse);
    let streamed = encode_response(&ResponseEnvelope {
        status: 200,
        headers: Vec::new(),
        body: b"ok".to_vec(),
    });
    let resp = session.finish_response(&streamed).expect("the streamed envelope must decode");
    assert_eq!(session.state, SessionState::Completed);
    assert_eq!(resp.status, 200);
    assert_eq!(resp.body, b"ok".to_vec());
}

#[test]
fn published_payload_preserves_headers_and_body_exactly() {
    let store = live_store();
    let req = GatewayRequest {
        method: String::from("POST"),
        path: String::from("/r/orders"),
        workspace_id_header: Some(String::from(LIVE_ID)),
        workspace_name_header: None,
        headers: vec![
            (b"content-type".to_vec(), b"application/json".to_vec()),
            (b"accept".to_vec(), b"*/*".to_vec()),
            (b"x-trace".to_vec(), b"0123".to_vec()),
        ],
        body: vec![0, 159, 146, 150, 255],
    };
    let expected_headers = req.headers.clone();
    let expected_body = req.body.clone();
    let plan = prepare_session(&store, req).expect("a valid tenant must produce a plan");
    let envelope = decode_request(&plan.payload).expect("the published payload must decode");
    assert_eq!(envelope.method, b"POST".to_vec());
    assert_eq!(envelope.path, b"/r/orders".to_vec());
    assert_eq!(envelope.headers, expected_headers);
    assert_eq!(envelope.body, expected_body);
    assert_eq!(plan.request_body, expected_body);
}

#[test]
fn end_to_end_garbage_workspace_id_yields_400() {
    let store = live_store();
    let req = GatewayRequest {
        method: String::from("GET"),
        path: String::from("/r/orders"),
        workspace_id_header: Some(String::from("garbage")),
        workspace_name_header: None,
        headers: Vec::new(),
        body: Vec::new(),
    };
    let e = match prepare_session(&store, req) {
        Ok(_) => panic!("a garbage id must not produce a plan"),
        Err(e) => e,
    };
    let resp = engine_router::gateway::error_response(&e);
    assert_eq!(resp.status, 400);
    assert_eq!(resp.body, b"{\"code\":\"InvalidTenant\"}".to_vec());
}
