//! A SIP user agent client with an RTP media path.
//!
//! The crate holds the decisions of the client: how a call is placed, answered and
//! closed, how its audio is numbered and queued, how the media engine starts, falls back
//! and stops.
//! It has no user interface and does no input or output of its own. Each state machine
//! says what to do next and is told what came of it, and what the user should know is a
//! [`UacEvent`].
pub mod audio;
pub mod call_audio;
pub mod client;
pub mod client_laws;
pub mod engine;
pub mod event;
pub mod handset;
pub mod media_loop;
mod random;
pub mod ring;
pub mod rtp;
pub mod session;
pub mod session_laws;
pub mod sip;
pub mod sip_laws;
pub mod text;

pub use client::UacClient;
pub use engine::RtpEngine;
pub use event::UacEvent;
pub use ring::SampleRing;
