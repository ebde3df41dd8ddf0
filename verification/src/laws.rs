//! What the library promises, stated of the arguments and the results of its
//! functions.
//!
//! Each law takes a call as its contract describes it and says what such a call
//! must come to, or how two calls hang together.
pub mod audio;
pub mod discovery;
pub mod engine;
pub mod language;
pub mod link;
pub mod pacing;
pub mod proto;
pub mod security;
pub mod session;
pub mod setup;
pub mod speech;
pub mod text;
pub mod window;
pub mod wording;
