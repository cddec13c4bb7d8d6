//! Core logic of a small HTTP gateway in front of a game-data API client.
//!
//! The gateway itself (HTTP server, rate limiter middleware, the API client
//! with its response cache) lives outside this crate; what is verified here is
//! the logic the gateway adds on top of it: which routes are registered from
//! configuration flags, how a request's identifying fields are resolved to a
//! single identity, how resource paths are matched against the known catalog,
//! and how the rate-limiter key is derived from cache state.

pub mod handlers;
pub mod query;
pub mod ratelimit;
pub mod registry;
pub mod resources;
pub mod response;
