//! Deciding what a game launch needs: which rule-gated libraries and
//! arguments apply on a platform, how the command line is assembled, and how
//! a download is retried until its checksum holds.

pub mod args;
pub mod download;
pub mod launcher;
pub mod meta;
pub mod rules;
pub mod text;
