//! The state of the engine and the rules by which it changes.

pub mod chart_type;
pub mod curves;
pub mod harmonic_table;
pub mod playback;
pub mod scheduler;
pub mod shared_params;
pub mod synthesizer;

pub use chart_type::ChartType;
pub use shared_params::{BufferState, SharedParams};
