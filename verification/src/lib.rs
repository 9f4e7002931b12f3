//! Core logic of a small desktop assistant overlay.
//!
//! The application lets a user type a prompt, forwards it to a locally
//! running chat-model backend, and shows the reply. This crate holds the
//! parts of that application that can be stated and proved: the JSON-backed
//! settings store, the bounded conversation history kept by the assistant
//! client, the view-state machine that reacts to user and system events,
//! the cosmetic cleanup applied to replies, and the desktop theme
//! classification. The windowing toolkit, the file system, and the network
//! calls to the backend live outside, in the surrounding application, which
//! feeds plain values in and carries the requested actions out.

pub mod client;
pub mod config;
pub mod json;
pub mod text;
pub mod theme;
pub mod update;
