//! Core of a karaoke playback engine: a shared FIFO play queue, single-slot
//! command mailboxes, a coordinator that turns playback intents into queue
//! mutations and preemption signals, and a synchronization engine that maps
//! elapsed audio time to graphics-sector decoding and frame production.

pub mod channel;
pub mod collection;
pub mod color;
pub mod config;
pub mod laws;
pub mod listing;
pub mod media;
pub mod model;
pub mod parse;
pub mod player;
pub mod queue;
pub mod record;
pub mod session;
pub mod timing;
pub mod worker;

pub use record::calculate_hash;
pub use record::Kfile;
