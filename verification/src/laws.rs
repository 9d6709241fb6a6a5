//! What holds of the library as a whole.

pub mod conversion;
pub mod events;
pub mod kept;
pub mod loading;
pub mod modules;
pub mod parsing;
pub mod recording;
pub mod samples;
pub mod stacks;
pub mod threads;
pub mod views;
