//! Linking a Discord account to a user of the main API.
//!
//! The crate holds the decisions of the OAuth round trip: which URL the
//! browser is sent to, which outbound calls are made in which order, how each
//! upstream answer is classified, and which HTTP response the caller gets.
//! It performs no I/O itself: every outbound call is described by an
//! [`http::Outbound`] value and its answer comes back as an [`http::Reply`].

pub mod config;
pub mod discord;
pub mod encoding;
pub mod http;
pub mod json;
pub mod replay;
pub mod routes;
pub mod session;
