//! What the window shows and decides. The drawing itself is elsewhere.
//!
//! Two halves: receiving and sending. Each is switched on by a toggle, and what
//! happens is seen in numbers and on plots, latency and loss on both sides,
//! because a problem rarely looks the same from both ends of a link.
pub mod app;
pub mod autostart;
pub mod state;
