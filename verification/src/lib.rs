//! Navigation and editing core of a terminal client for a three-level
//! resource hierarchy (sessions, agenda items, motions).
//!
//! The library is the state machine of that client: cursor navigation over
//! ordered lists, drill-down focus tracking, a generic edit buffer of named
//! text fields, and the construction of the create/patch/delete requests that
//! keep the local state synchronised with the server.  All transport, JSON
//! encoding, terminal rendering and token acquisition stay outside, behind
//! the `Action` / `Response` interface of [`client::Client`].

pub mod list;
pub mod resource;
pub mod client;
pub mod edit;
pub mod schema;
