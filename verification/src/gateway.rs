//! The gateway's per-request decisions: route an inbound path, resolve the
//! tenant, name the session's bus addresses, build the control headers and
//! the encoded request envelope, and turn every outcome — success, typed
//! failure, or an uncaught handler fault — into a well-formed HTTP
//! response.
use vstd::prelude::*;

use crate::codec::{encode_request, spec_encode_request};
use crate::envelope::{RequestEnvelope, RequestEnvelopeView, ResponseEnvelope, ResponseEnvelopeView};
use crate::errors::GatewayError;
use crate::ids::fresh_address;
use crate::resolve::WorkspaceStore;
use crate::subject::{create_workspaces_subject, spec_subject, WorkspacesAction};
use vstd::utf8::encode_utf8;

verus! {

/// Where a path routes.
#[derive(Clone, Copy, Debug, PartialEq, Eq, Structural)]
pub enum RouteKind {
    /// Dispatch to the streaming-session handler.
    Bridge,
    /// No route: answer 404.
    NotFound,
}

pub open spec fn is_digit(c: char) -> bool {
    '0' <= c && c <= '9'
}

/// The path lies under the reserved execution prefix `/r/`.
pub open spec fn starts_with_run_prefix(p: Seq<char>) -> bool {
    p.len() >= 3 && p[0] == '/' && p[1] == 'r' && p[2] == '/'
}

/// From index `i` on, only digits stand before the end of the first path
/// segment (the next `'/'` or the end of the path).
pub open spec fn rest_numeric(p: Seq<char>, i: int) -> bool
    decreases p.len() - i,
{
    if i < 0 || i >= p.len() {
        true
    } else if p[i] == '/' {
        true
    } else if is_digit(p[i]) {
        rest_numeric(p, i + 1)
    } else {
        false
    }
}

/// The path's first segment is purely numeric and nonempty, as in
/// `/2/system/load/index.css`.
pub open spec fn numeric_leading_segment(p: Seq<char>) -> bool {
    p.len() >= 2 && p[0] == '/' && is_digit(p[1]) && rest_numeric(p, 2)
}

/// Where a path routes: the execution prefix and numeric-leading paths go
/// to the bridge, everything else is not found.
pub open spec fn spec_route(p: Seq<char>) -> RouteKind {
    if starts_with_run_prefix(p) || numeric_leading_segment(p) {
        RouteKind::Bridge
    } else {
        RouteKind::NotFound
    }
}

/// Decide where a request path routes.
pub fn route_decision(path: &str) -> (r: RouteKind)
    ensures
        r == spec_route(path@),
{
    let n = path.unicode_len();
    if n >= 3 && path.get_char(0) == '/' && path.get_char(1) == 'r' && path.get_char(2) == '/' {
        return RouteKind::Bridge;
    }
    if n < 2 {
        return RouteKind::NotFound;
    }
    if path.get_char(0) != '/' {
        return RouteKind::NotFound;
    }
    let c1 = path.get_char(1);
    if !('0' <= c1 && c1 <= '9') {
        return RouteKind::NotFound;
    }
    let mut i: usize = 2;
    loop
        invariant
            2 <= i <= n,
            n == path@.len(),
            n >= 2,
            path@[0] == '/',
            is_digit(path@[1]),
            !starts_with_run_prefix(path@),
            rest_numeric(path@, 2) <==> rest_numeric(path@, i as int),
        decreases n - i,
    {
        if i == n {
            return RouteKind::Bridge;
        }
        let c = path.get_char(i);
        if c == '/' {
            return RouteKind::Bridge;
        }
        if !('0' <= c && c <= '9') {
            return RouteKind::NotFound;
        }
        i = i + 1;
    }
}

/// The three bus addresses generated fresh for one session: the control
/// (directives) channel, the out-of-band request-body channel, and the
/// response-body channel.
pub struct RequestResponseSubjects {
    pub directives: String,
    pub request_body: String,
    pub response_body: String,
}

/// The control headers attached to the published request envelope: tenant
/// id, URL path, and the session's three addresses, under their wire keys.
pub open spec fn spec_nats_headers(
    workspace_id: Seq<char>,
    uri_path: Seq<char>,
    directives: Seq<char>,
    request_body: Seq<char>,
    response_body: Seq<char>,
) -> Seq<(Seq<char>, Seq<char>)> {
    seq![
        ("workspace-id"@, workspace_id),
        ("url-path"@, uri_path),
        ("directives-subject"@, directives),
        ("request-body-subject"@, request_body),
        ("response-body-subject"@, response_body),
    ]
}

/// Build the control headers for a session.
pub fn create_nats_headers(workspace_id: &str, uri_path: &str, subjects: &RequestResponseSubjects)
    -> (r: Vec<(String, String)>)
    ensures
        r.deep_view() == spec_nats_headers(
            workspace_id@,
            uri_path@,
            subjects.directives@,
            subjects.request_body@,
            subjects.response_body@,
        ),
{
    let mut r: Vec<(String, String)> = Vec::new();
    r.push((String::from_str("workspace-id"), String::from_str(workspace_id)));
    r.push((String::from_str("url-path"), String::from_str(uri_path)));
    r.push((String::from_str("directives-subject"), String::from_str(subjects.directives.as_str())));
    r.push((
        String::from_str("request-body-subject"),
        String::from_str(subjects.request_body.as_str()),
    ));
    r.push((
        String::from_str("response-body-subject"),
        String::from_str(subjects.response_body.as_str()),
    ));
    proof {
        assert(r.deep_view() =~= spec_nats_headers(
            workspace_id@,
            uri_path@,
            subjects.directives@,
            subjects.request_body@,
            subjects.response_body@,
        ));
    }
    r
}

/// One inbound HTTP request as the gateway sees it: the textual method and
/// path, the two recognized tenant hints extracted from its headers, the
/// full raw header set, and the body bytes.
pub struct GatewayRequest {
    pub method: String,
    pub path: String,
    /// The tenant-id header's value, where present.
    pub workspace_id_header: Option<String>,
    /// The tenant-name header's value, where present.
    pub workspace_name_header: Option<String>,
    pub headers: Vec<(Vec<u8>, Vec<u8>)>,
    pub body: Vec<u8>,
}

/// Everything a session driver needs to run one request over the bus:
/// the resolved tenant, the publish subject, the fresh addressing triple,
/// the control headers, the encoded envelope, and the buffered body for an
/// out-of-band hand-off.
pub struct SessionPlan {
    /// The resolved canonical workspace id text.
    pub workspace_id: String,
    /// The tenant/action subject the request envelope is published to.
    pub subject: String,
    /// The session's three fresh bus addresses.
    pub subjects: RequestResponseSubjects,
    /// The control headers attached to the publish.
    pub nats_headers: Vec<(String, String)>,
    /// The encoded request envelope.
    pub payload: Vec<u8>,
    /// The buffered request body, published only on demand.
    pub request_body: Vec<u8>,
}

/// The envelope image a gateway request is encoded from.
pub open spec fn spec_request_envelope(
    method: Seq<char>,
    path: Seq<char>,
    headers: Seq<(Seq<u8>, Seq<u8>)>,
    body: Seq<u8>,
) -> RequestEnvelopeView {
    RequestEnvelopeView {
        method: encode_utf8(method),
        path: encode_utf8(path),
        headers,
        body,
    }
}

/// Decide everything about one bridged request before any bus work: route,
/// resolve the tenant, draw the three fresh addresses, and build subject,
/// control headers and encoded envelope. An unroutable path fails with
/// `NotFound` and an unresolvable tenant with `InvalidTenant`; in both
/// cases no plan exists, so no publish can occur.
pub fn prepare_session(store: &WorkspaceStore, req: GatewayRequest) -> (r: Result<
    SessionPlan,
    GatewayError,
>)
    ensures
        spec_route(req.path@) == RouteKind::NotFound ==> r == Err::<SessionPlan, GatewayError>(
            GatewayError::NotFound,
        ),
        ({
            let resolved = store.spec_resolve(
                match req.workspace_id_header {
                    Some(h) => Some(h@),
                    None => None,
                },
                match req.workspace_name_header {
                    Some(n) => Some(n@),
                    None => None,
                },
            );
            spec_route(req.path@) == RouteKind::Bridge ==> match resolved {
                Err(e) => r == Err::<SessionPlan, GatewayError>(e),
                Ok(id) => r matches Ok(plan) && {
                    &&& plan.workspace_id@ == id
                &&& plan.subject@ == spec_subject(id, WorkspacesAction::RunSurl, None)
                &&& plan.nats_headers.deep_view() == spec_nats_headers(
                    id,
                    req.path@,
                    plan.subjects.directives@,
                    plan.subjects.request_body@,
                    plan.subjects.response_body@,
                )
                &&& plan.payload@ == spec_encode_request(
                    spec_request_envelope(
                        req.method@,
                        req.path@,
                        req.headers.deep_view(),
                        req.body@,
                    ),
                )
                    &&& plan.request_body@ == req.body@
                },
            }
        }),
{
    if let RouteKind::NotFound = route_decision(req.path.as_str()) {
        return Err(GatewayError::NotFound);
    }
    let workspace_id = match store.resolve(
        match &req.workspace_id_header {
            Some(h) => Some(h.as_str()),
            None => None,
        },
        match &req.workspace_name_header {
            Some(n) => Some(n.as_str()),
            None => None,
        },
    ) {
        Ok(id) => id,
        Err(e) => {
            return Err(e);
        },
    };
    let subject = match create_workspaces_subject(
        workspace_id.as_str(),
        WorkspacesAction::RunSurl,
        None,
    ) {
        Some(s) => s,
        None => {
            return Err(GatewayError::InternalError);
        },
    };
    let subjects = RequestResponseSubjects {
        directives: fresh_address(),
        request_body: fresh_address(),
        response_body: fresh_address(),
    };
    let nats_headers = create_nats_headers(workspace_id.as_str(), req.path.as_str(), &subjects);
    let method_bytes = req.method.as_str().as_bytes_vec();
    let path_bytes = req.path.as_str().as_bytes_vec();
    let request_body = req.body;
    let body_copy = vstd::slice::slice_to_vec(request_body.as_slice());
    let envelope = RequestEnvelope {
        method: method_bytes,
        path: path_bytes,
        headers: req.headers,
        body: body_copy,
    };
    let payload = encode_request(&envelope);
    proof {
        assert(envelope@ =~= spec_request_envelope(
            req.method@,
            req.path@,
            req.headers.deep_view(),
            req.body@,
        ));
    }
    Ok(
        SessionPlan {
            workspace_id,
            subject,
            subjects,
            nats_headers,
            payload,
            request_body,
        },
    )
}

/// The client-facing response for a fault: the fault's status code, no
/// headers, and the structured JSON body naming the code word.
pub open spec fn spec_error_response(e: GatewayError) -> ResponseEnvelopeView {
    ResponseEnvelopeView {
        status: e.spec_status_code(),
        headers: Seq::empty(),
        body: encode_utf8(e.spec_error_json()),
    }
}

/// Build the client-facing response for a fault.
pub fn error_response(e: &GatewayError) -> (r: ResponseEnvelope)
    ensures
        r@ == spec_error_response(*e),
{
    let body = e.error_json();
    let r = ResponseEnvelope {
        status: e.status_code(),
        headers: Vec::new(),
        body: body.as_str().as_bytes_vec(),
    };
    proof {
        assert(r@ =~= spec_error_response(*e));
    }
    r
}

/// How one handler invocation ended, as seen by the panic/failure barrier
/// around it.
pub enum HandlerOutcome {
    /// The handler produced a response.
    Success(ResponseEnvelope),
    /// The handler returned a typed fault.
    Failure(GatewayError),
    /// The handler raised an uncaught fault mid-request.
    Panicked,
}

/// The last-resort barrier's decision: a success passes through untouched,
/// a typed fault becomes its classified response, and an uncaught fault
/// becomes a 500/`InternalError` response — never a dropped connection.
pub fn wrap_outcome(o: HandlerOutcome) -> (r: ResponseEnvelope)
    ensures
        match o {
            HandlerOutcome::Success(resp) => r@ == resp@,
            HandlerOutcome::Failure(e) => r@ == spec_error_response(e),
            HandlerOutcome::Panicked => r@ == spec_error_response(GatewayError::InternalError),
        },
{
    match o {
        HandlerOutcome::Success(resp) => resp,
        HandlerOutcome::Failure(e) => error_response(&e),
        HandlerOutcome::Panicked => error_response(&GatewayError::InternalError),
    }
}

} // verus!
