//! A local speech-to-text server: which model is loaded and for how long, what requests are
//! answered with until it is, and how others learn of the server.
//!
//! Everything here decides and computes. Locks, timers, sockets and the loading of models are the
//! caller's: it runs the steps that this crate hands out and hands back what came of them.

pub mod builder;
pub mod builder_laws;
pub mod error;
pub mod get;
pub mod get_laws;
pub mod header;
pub mod listen;
pub mod listen_laws;
pub mod manager;
pub mod manager_laws;
pub mod operation_laws;
pub mod query_laws;
pub mod readiness;
pub mod reply_laws;
pub mod request;
pub mod request_laws;
pub mod response;
pub mod server;
pub mod server_laws;
pub mod service;
pub mod service_laws;
pub mod serving_laws;
pub mod text;
pub mod text_laws;
