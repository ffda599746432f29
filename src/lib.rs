//! Keyboard activity overlay: per-column key aggregation, a bounded
//! press/release timeline, and the frame layout that draws it.

pub mod column;
pub mod config;
pub mod defaults;
pub mod draw;
pub mod history;
pub mod layout;
pub mod render;
pub mod scene;
pub mod timeline;
