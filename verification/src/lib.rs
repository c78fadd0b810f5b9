//! Black-76 option pricing: the discrete vocabulary of the model and the
//! integer decisions of the volatility smile, with their contracts.
//!
//! - [`types`]: `OptionType`, `SolverMethod`, `SolverStatus`.
//! - [`vol_surface`]: `SmileQuality` and its tiering rule; the choice of the
//!   observed strikes that bracket a target strike.
//! - [`digital`]: `ProbabilityMethod`.

pub mod digital;
pub mod types;
pub mod vol_surface;

pub use types::{OptionType, SolverMethod, SolverStatus};
