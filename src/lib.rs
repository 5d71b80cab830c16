//! A resilient client-side duplex message channel.
//!
//! The library decides what a reconnecting websocket does: when to reopen the
//! transport and after how long, which of the inbound and outbound concerns is
//! serviced first, when an outbound message may be taken from the queue, and
//! when the stream ends. The transport, the timer and the queue are driven by
//! the caller, who reports each outcome back to the [`Engine`].
pub mod backoff;
pub use backoff::BackoffPolicy;

pub mod builder;
pub use builder::{
    Config, ConfigError, SocketBuilder, DEFAULT_BACKOFF_MAX_MS, DEFAULT_BACKOFF_MIN_MS,
    DEFAULT_MAX_RETRIES, DEFAULT_STABLE_TIMEOUT_MS,
};

pub mod engine;
pub use engine::{Action, Disconnect, Engine, EngineView, Inbound, Outbound, Phase, Readiness, Step};

pub mod guarantees;

pub mod location;
pub use location::{HttpProtocol, WebSocketProtocol};

pub mod state;
pub use state::{NextPoll, State};
