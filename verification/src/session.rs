//! Both sides of a session, and what it says about itself.
//!
//! Everything here decides; nothing here waits, sends or draws. The sockets, the
//! sound card and the screen are driven from outside, which hands in what came
//! and does what it is told.
pub mod cli;
pub mod doctor;
pub mod intake;
pub mod interrupt;
pub mod pacer;
pub mod pair;
pub mod recv;
pub mod send;
pub mod setup;
pub mod ui;
