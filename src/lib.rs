//! An embeddable observability sidecar: a health probe and a metrics snapshot
//! served next to a host service, and a request-instrumentation decorator.
pub mod addr;
pub mod metrics_middleware;
pub mod registry;
pub mod server;
