//! Transport-agnostic envelopes: the immutable snapshot of an HTTP request
//! captured at ingress, and the HTTP response assembled from the bus, both
//! as plain byte fields ready for the codec.
use vstd::prelude::*;

verus! {

/// An immutable snapshot of one inbound HTTP request: method, URI path,
/// full header set and body bytes, captured once at ingress and never
/// mutated afterwards.
pub struct RequestEnvelope {
    pub method: Vec<u8>,
    pub path: Vec<u8>,
    pub headers: Vec<(Vec<u8>, Vec<u8>)>,
    pub body: Vec<u8>,
}

/// An HTTP response as carried over the bus: status code, header set and
/// body bytes.
pub struct ResponseEnvelope {
    pub status: u16,
    pub headers: Vec<(Vec<u8>, Vec<u8>)>,
    pub body: Vec<u8>,
}

/// The mathematical image of a `RequestEnvelope`.
#[verifier::ext_equal]
pub struct RequestEnvelopeView {
    pub method: Seq<u8>,
    pub path: Seq<u8>,
    pub headers: Seq<(Seq<u8>, Seq<u8>)>,
    pub body: Seq<u8>,
}

/// The mathematical image of a `ResponseEnvelope`.
#[verifier::ext_equal]
pub struct ResponseEnvelopeView {
    pub status: u16,
    pub headers: Seq<(Seq<u8>, Seq<u8>)>,
    pub body: Seq<u8>,
}

impl View for RequestEnvelope {
    type V = RequestEnvelopeView;

    open spec fn view(&self) -> RequestEnvelopeView {
        RequestEnvelopeView {
            method: self.method@,
            path: self.path@,
            headers: self.headers.deep_view(),
            body: self.body@,
        }
    }
}

impl View for ResponseEnvelope {
    type V = ResponseEnvelopeView;

    open spec fn view(&self) -> ResponseEnvelopeView {
        ResponseEnvelopeView {
            status: self.status,
            headers: self.headers.deep_view(),
            body: self.body@,
        }
    }
}

} // verus!
