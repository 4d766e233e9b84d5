//! Gateway error classification: the closed set of faults surfaced to
//! clients, each with an HTTP status code and a machine-readable code word
//! rendered as a small JSON body.
use vstd::prelude::*;

verus! {

/// The faults a request can end in. Client faults map to 4xx statuses,
/// internal/backend faults to 5xx statuses; no other error ever reaches a
/// client.
#[derive(Clone, Copy, Debug, PartialEq, Eq, Structural)]
pub enum GatewayError {
    /// The request carried no usable tenant header, or the tenant it named
    /// does not exist or is soft-deleted.
    InvalidTenant,
    /// The request path matches no route.
    NotFound,
    /// A codec failure, bus I/O failure, unexpected channel close, or an
    /// uncaught handler fault.
    InternalError,
    /// No terminal directive arrived within the session deadline.
    GatewayTimeout,
}

impl GatewayError {
    /// The HTTP status code carried by the client-facing response.
    pub open spec fn spec_status_code(self) -> u16 {
        match self {
            GatewayError::InvalidTenant => 400,
            GatewayError::NotFound => 404,
            GatewayError::InternalError => 500,
            GatewayError::GatewayTimeout => 504,
        }
    }

    /// The machine-readable code word named in the JSON error body.
    pub open spec fn spec_code_text(self) -> Seq<char> {
        match self {
            GatewayError::InvalidTenant => "InvalidTenant"@,
            GatewayError::NotFound => "NotFound"@,
            GatewayError::InternalError => "InternalError"@,
            GatewayError::GatewayTimeout => "GatewayTimeout"@,
        }
    }

    /// The JSON error body, `{"code":"<code word>"}`.
    pub open spec fn spec_error_json(self) -> Seq<char> {
        "{\"code\":\""@ + self.spec_code_text() + "\"}"@
    }

    pub fn status_code(&self) -> (r: u16)
        ensures
            r == self.spec_status_code(),
    {
        match self {
            GatewayError::InvalidTenant => 400,
            GatewayError::NotFound => 404,
            GatewayError::InternalError => 500,
            GatewayError::GatewayTimeout => 504,
        }
    }

    pub fn code_text(&self) -> (r: &'static str)
        ensures
            r@ == self.spec_code_text(),
    {
        match self {
            GatewayError::InvalidTenant => "InvalidTenant",
            GatewayError::NotFound => "NotFound",
            GatewayError::InternalError => "InternalError",
            GatewayError::GatewayTimeout => "GatewayTimeout",
        }
    }

    /// Render the structured JSON error body for this fault. Nothing of the
    /// raw internal error is ever part of it.
    pub fn error_json(&self) -> (r: String)
        ensures
            r@ == self.spec_error_json(),
    {
        let mut body = String::from_str("{\"code\":\"");
        body.append(self.code_text());
        body.append("\"}");
        body
    }
}

} // verus!
