//! Settings for capturing still images with the Raspberry Pi camera tool.
//!
//! The settings are kept as text, ready to be handed to the capture tool as
//! command-line arguments. Nothing here validates them.

pub mod image;
