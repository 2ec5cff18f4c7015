//! Core logic of a chat bot that bridges a messaging platform to a
//! generative-AI completion API: conversation-session lifecycle, token-budget
//! bookkeeping, event filtering, reply chunking, request framing and command
//! dispatch. All platform and HTTP I/O lives outside this crate; the functions
//! here are pure decisions over plain values.

pub mod budget;
pub mod dispatch;
pub mod encode;
pub mod errors;
pub mod filter;
pub mod image;
pub mod messages;
pub mod response;
pub mod session;
pub mod text;
