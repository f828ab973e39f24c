//! The verified core of a chat-group answer bot: deterministic assembly of
//! a self-contained themed HTML document from Markdown, the lifecycle of
//! the headless-browser session that captures it as a PNG, the pure half
//! of the completion facade, and the orchestrator's decisions (command
//! dispatch, prefix stripping, quote prepending, reaction planning).
//!
//! Host I/O — the chat transport, the completion HTTP call, the clock, the
//! on-disk render artifact — stays outside; it hands the library plain
//! values and takes plain values back.
pub mod config;
pub mod error;
pub mod html;
pub mod orchestrate;
pub mod req;
pub mod server;
pub mod session;
pub mod text;
pub mod theme;
