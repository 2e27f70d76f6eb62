//! An interactive editor core: a registry of named, pluggable modes, an
//! event classifier that turns one raw event into exactly one typed callback,
//! and a drag-to-create-segment editing state machine over an ordered
//! document of line segments, together with typed configuration loading.

pub mod application;
pub mod config;
pub mod error;
pub mod event;
pub mod geometry;
pub mod handler;
pub mod json;
pub mod rust_rider;
