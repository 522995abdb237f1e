//! Request tracing for short-lived request handlers: trace identity
//! propagation, span records filled from instrumentation attributes, and
//! the JSON body that a local trace agent ingests.

pub mod field_visitor;
pub mod hooks;
pub mod span_record;
pub mod text;
pub mod trace_identity;
pub mod wire;
