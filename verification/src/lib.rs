//! Turns the records of a `perf.data` recording into a profile.

pub mod converter;
pub mod dispatch;
pub mod events;
pub mod ids;
pub mod laws;
mod mappings;
pub mod module;
pub mod object_file;
pub mod profile;
pub mod recording;
pub mod records;
mod sampling;
pub mod stack;
pub mod state;
pub mod tables;
pub mod text;
pub mod unwind;
