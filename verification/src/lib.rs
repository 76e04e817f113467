//! Neighbor-interaction evaluation and adaptive time-stepping for a
//! particle-based (smoothed-particle-hydrodynamics style) fluid simulator.
//!
//! All scalar quantities are exact fixed-point integers: positions and
//! lengths are counted in space ticks, times in time ticks (`TIME_UNIT`
//! ticks make one unit of simulated time).  Every routine is specified and
//! verified over that exact arithmetic, so no evaluation can produce an
//! undefined value.

pub mod geometry;
pub mod helper;
pub mod kernel;
pub mod math;
pub mod object;
pub mod timestep_manager;
