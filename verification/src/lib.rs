//! Gateway core for bridging HTTP requests onto a publish/subscribe message
//! bus: tenant (workspace) resolution, bus subject naming, request/response
//! envelope encoding, and the directive-negotiated streaming session that
//! assembles an HTTP response from bus messages.
pub mod codec;
pub mod envelope;
pub mod errors;
pub mod gateway;
pub mod ids;
pub mod resolve;
pub mod session;
pub mod subject;
pub mod text;
