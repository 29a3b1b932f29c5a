//! The core of a NIH-plug editor whose user interface is drawn by Slint in a baseview window.
//!
//! The library decides; the shell around it opens windows, calls Slint and the host, and
//! computes in floating point. `editor` says what window to open and how, `handler` what a
//! window does with its events and frames, and `state` holds the size that the host saves.
//! `laws` proves what holds of a window over its whole life, `guarantees` what each operation
//! gets done, and `calls` that both hold of the calls that a shell makes.

pub mod adapter;
pub mod calls;
pub mod editor;
pub mod event;
pub mod geometry;
pub mod guarantees;
pub mod handler;
pub mod keys;
pub mod laws;
pub mod state;

pub use editor::SlintEditor;
pub use handler::WindowHandler;
pub use state::SlintEditorState;
