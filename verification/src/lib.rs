//! A cancellable web-app host: one supervised run binds a listener (plain or
//! TLS), serves a routing table, and terminates either on its own or through a
//! one-shot cancellation signal with a bounded graceful shutdown.
//!
//! The run's lifecycle — which status events are emitted, in which order, and
//! which terminal result the caller observes — is modelled as a state machine
//! and verified here; the sockets themselves are poem's, reached through a few
//! trusted wrappers, and the async plumbing around the library stays outside.

pub mod config;
pub mod listener;
pub mod routes;
pub mod runner;
pub mod static_files;
pub mod status;
pub mod web_app;
