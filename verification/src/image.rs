//! Everything that describes how a still image is to be taken.

pub mod settings;
