//! Checkgate: the decisions of a feature-flag server and of its mobile SDK surface.
//!
//! Everything here computes; nothing here waits. Where a decision needs the database, the
//! broadcast channel or the flag engine, it is a step function: it takes the state and the
//! reply that came in, and gives the next state and what to ask for next.
pub mod access;
pub mod auth;
pub mod auth_laws;
pub mod clients;
pub mod cookies;
pub mod credential_laws;
pub mod credentials;
pub mod hashing;
pub mod headers;
pub mod identity;
pub mod json;
pub mod scheduler;
pub mod scheduler_laws;
pub mod scheduler_workers;
pub mod sdk;
pub mod sdk_laws;
pub mod snapshot;
pub mod sse;
pub mod sse_laws;
pub mod status;
pub mod stream;
pub mod text;
pub mod view_laws;
