//! Sideline: the decisions behind a fail-closed JSON task store and a
//! screen-edge docked window, separated from the file system and the
//! windowing system that carry them out.

pub mod model;
pub mod disk;
pub mod store;
pub mod save;
pub mod recover;
pub mod laws;
pub mod display;
pub mod geometry;
