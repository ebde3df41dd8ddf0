//! Finding the other machine, and talking to it in private.
//!
//! A receiver announces itself by mDNS/DNS-SD, the mechanism by which printers
//! and speakers speak up in a home network, and a sender sees it. The router
//! need not know anything, the user need not know any address.
pub mod channel;
pub mod discovery;
pub mod exchange;
pub mod keys;
pub mod name;
pub mod pair;
pub mod secure;
