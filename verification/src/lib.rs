//! Verified core of the Lumina desktop client for Google Messages.
//!
//! The library holds the decisions of the client: which browsers it probes
//! for Google session cookies and how it judges what they yield, how a
//! request to the bridge process is framed as one line of JSON, how a line
//! coming back is routed to the call that waits for it or published as an
//! event, and how a media request is answered.
mod text;
mod keyed;
pub mod pending;
mod json;
pub mod protocol;
pub mod media;
pub mod gaia;
pub mod browsers;
pub mod cookie_jar;
pub mod cookies;
