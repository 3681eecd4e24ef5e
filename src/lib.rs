//! A content-sniffing TCP relay, as a verified library.
//!
//! The library holds every decision of the relay: where configuration values
//! come from, the greeting written to a new client, which backend a sniffed
//! payload selects, how a session moves through its phases, and how one
//! direction of the byte pump forwards what it reads. The program around it
//! performs the socket work and feeds the outcomes back in.
pub mod config;
pub mod policy;
pub mod relay;
pub mod session;
pub mod sniff;
