//! Core of a terminal hardware-telemetry dashboard: a bounded sliding
//! time-series window, small input-driven widget states, exact
//! value-to-presentation mappings, and the cooperative multi-rate
//! scheduling loop that ties them together.

pub mod counter;
pub mod logs;
pub mod panels;
pub mod parse;
pub mod presentation;
pub mod scheduler;
pub mod snapshot;
pub mod window;

pub use counter::Counter;
pub use logs::Logs;
pub use panels::{Fan, FansWidget, HeatWidget, Navbar};
pub use presentation::Rgb;
pub use scheduler::TelemetryScheduler;
pub use snapshot::TelemetrySnapshot;
pub use window::{Sample, TimeSeriesWindow};
