//! Core of a desktop front end for a local inference server: download
//! bookkeeping, server supervision, streamed chat parsing and the lifecycle
//! rules, all as plain state transitions that a control loop drives.

pub mod app;
pub mod chat;
pub mod download;
pub mod hf;
pub mod json;
pub mod lifecycle;
pub mod logbuf;
pub mod models;
pub mod runtime;
pub mod scan;
pub mod server;
pub mod stream;
pub mod text;
