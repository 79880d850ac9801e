//! Azrath: the verified core of a blocking/async HTTP server built on hyper.
//!
//! The crate holds the parts of the server that decide and compute: the
//! server configuration and its defaults, the request/response body and its
//! synchronous reader, the worker pool's bookkeeping, the reactor's readiness
//! bookkeeping and the server builder. Sockets, threads and the event loop
//! drive these from the outside.

pub mod builder;
pub mod config;
pub mod error;
pub mod executor;
pub mod http;
pub mod net;
pub mod poll_record;
pub mod server;

pub use crate::config::ServerConfig;
pub use crate::error::{ExecutorError, ReactorError};
pub use crate::http::{Body, BodyReader};
pub use crate::server::Server;
