//! Irid: the configuration, asset and rendering-plan logic of a small game
//! framework, verified with Verus. Window, GPU and file work stay with the
//! caller; this crate decides what that work is.

pub mod camera;
pub mod config;
pub mod generic;
pub mod application;
pub mod assets;
pub mod layout;
pub mod listener;
pub mod model;
pub mod pipeline;
pub mod render;
pub mod shader;
pub mod texture;
pub mod config_file;
