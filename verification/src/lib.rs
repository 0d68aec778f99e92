//! A remote-development session daemon and its local proxy.
//!
//! A thin local proxy process keeps a durable, reconnectable byte-stream
//! session with a long-running daemon through three named local sockets
//! (input, output, diagnostics). This crate holds the verified logic of that
//! mechanism: the length-prefixed framing codec, the PID registry that tracks
//! the single daemon instance per session, the daemon's accept/pump state
//! machine with its idle-shutdown policy, the proxy's launch/attach decisions,
//! and the garbage collection of superseded daemon binaries — together with
//! the plain data types the surrounding subsystems exchange.

pub mod adapters;
pub mod agent;
pub mod client_types;
pub mod cloud_api_types;
pub mod daemon;
pub mod db_queries;
pub mod decimal;
pub mod gc;
pub mod language_model_types;
pub mod log_tee;
pub mod model_settings;
pub mod protocol;
pub mod proxy;
pub mod registry;
pub mod session_paths;
pub mod zedless;

pub use protocol::Envelope;
pub use protocol::FrameError;
