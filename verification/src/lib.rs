//! Insight Reader: the verified core of a text-to-speech reader.
pub mod cli;
pub mod config;
pub mod flags;
pub mod hotkey;
pub mod locations;
pub mod logging;
pub mod model;
pub mod paths;
pub mod providers;
pub mod system;
pub mod text;
pub mod update;
pub mod voices;
