//! Verified core of client-side HTTP request tracing: span naming, request
//! attributes, the header carrier used for context propagation, and the
//! lifecycle of one traced request.
pub mod headers;
pub mod request;
pub mod tracer;
