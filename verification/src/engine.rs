//! The sound path between the network and the card: the jitter buffer, a
//! simulated link to drive it with, and the small decisions of the codec.
//!
//! Nothing here touches a sound card or a socket, so the whole module can be
//! driven from tests with a synthetic packet stream.
pub mod codec;
pub mod jitter;
pub mod lcg;
pub mod netsim;
pub mod resample;
