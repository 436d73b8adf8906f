//! The logic of a GitLab CI monitor for the terminal.

pub mod text;
pub mod names;
pub mod branch;
pub mod timestamp;
pub mod model;
pub mod modes;
pub mod error;
pub mod config;
pub mod query;
pub mod updatable;
pub mod jobs;
pub mod diff;
pub mod bridges;
pub mod state;
pub mod worker;
pub mod screen;
pub mod keys;
pub mod monitor;
pub mod display;
pub mod refresh;
pub mod pattern;
pub mod wait;
pub mod alias;
pub mod command;
pub mod laws;
