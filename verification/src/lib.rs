//! The core of a gateway in front of a music player daemon.
//!
//! The gateway adds two things to the daemon's control protocol: commands
//! survive a control session that drops, and every folder of the library
//! gets its cover art, looked up once by the release that its tracks name
//! and kept on disk from then on.
//!
//! Nothing here touches the network or the disk. `executor` decides when a
//! command is sent again and when the session is reconnected; `artwork`
//! decides what is looked up, fetched, stored and filed for a folder, and
//! `model` states what complete resolutions come to. The caller carries
//! the decisions out and reports back what happened.

pub mod artwork;
pub mod browser;
pub mod caa;
pub mod error;
pub mod executor;
pub mod folders;
pub mod listing;
pub mod model;
pub mod player;
pub mod release;
