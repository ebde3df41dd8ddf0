//! A microphone on one machine, heard on another.
pub mod audio;
pub mod engine;
pub mod i18n;
pub mod laws;
pub mod names;
pub mod net;
pub mod proto;
pub mod session;
pub mod text;
pub mod window;
