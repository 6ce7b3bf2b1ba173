//! A small HTTP request pipeline: a greeting endpoint wrapped in route tagging,
//! request identity and tracing-span stages, each with a verified contract.

pub mod envelope;
pub mod request;
pub mod service;
pub mod span;
pub mod http_route_populate;
pub mod request_id;
pub mod route_service_wrap;
pub mod endpoint_builder;
pub mod observability;
