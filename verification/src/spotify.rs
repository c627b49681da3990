//! Types and pure helpers for the external music catalog service.
//!
//! The data model of the catalog's playlist and authorization payloads, and
//! the construction of the request lines sent to it. The transport itself —
//! HTTP, token exchange, response decoding — lives outside the library and
//! hands values of these types in and out.

pub mod api;
pub mod auth_struct;
