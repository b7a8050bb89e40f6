//! Batch loudness normalisation of the audio files of one directory: which
//! files are taken, how the answers to the prompts are read, and which
//! command is run for each file.

pub mod command;
pub mod messages;
pub mod model;
pub mod path;
pub mod platform;
pub mod prompt;
pub mod scan;
pub mod session;
pub mod text;
