//! A request pipeline for a small HTTP service, stated over plain values:
//! correlation identifiers, route handlers and the per-request log record.

pub mod context;
pub mod handlers;
pub mod laws;
pub mod message;
pub mod request_info;
