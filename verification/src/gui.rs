//! The rules behind the editor's controls.

pub mod curve_controls;
