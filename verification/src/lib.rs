//! Ingestion core of a live stream overlay.
//!
//! Two producers feed one consumer. The video producer negotiates a capture
//! mode with the camera and turns every captured frame into an RGBA frame.
//! The chat producer keeps a session with the chat server, answers its
//! keepalive, follows its reconnect directives and reads chat messages as
//! commands or as colours. Both hand their events to a channel that buffers
//! a single event, which the consumer polls once per tick without ever
//! waiting.
//!
//! The library holds the decisions: which capture mode to take (`stream`),
//! how a frame is laid out (`frame`), what a chat text asks for (`command`,
//! `color`, `text`), how the session and the producer move from state to
//! state (`chat`, `video`), what a valid configuration is (`config`), and
//! the consumer's end of the channel (`event`). Talking to the camera, the
//! chat server and the operating system is left to the program around it,
//! which performs the actions that the state machines return and reports
//! what came of them.

pub mod chat;
pub mod color;
pub mod command;
pub mod config;
pub mod event;
pub mod frame;
pub mod stream;
pub mod text;
pub mod video;
