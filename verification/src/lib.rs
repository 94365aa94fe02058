//! Client-side logic of the OpenCode SDK: configuration builders, decoding
//! and session routing of streamed events, SSE stream bookkeeping and the
//! collection of streamed text.

pub mod client;
pub mod duration;
pub mod error;
pub mod http;
pub mod json;
pub mod runtime;
pub mod server;
pub mod sse;
pub mod text;
pub mod types;

pub use client::{ClientBuilder, HttpConfig, IdleStep, IdleTextCollector};
pub use duration::Duration;
pub use error::OpencodeError;
pub use http::HttpClient;
pub use http::questions::QuestionsApi;
pub use runtime::ManagedRuntimeBuilder;
pub use server::ServerOptions;
pub use sse::{RawSseEvent, SessionEventRouterOptions, SseOptions, SseStreamStats};
pub use types::event::Event;
