//! Display: the controller's response to events, pixel conversion and
//! rendering statistics.
pub mod control;
pub mod converter;
pub mod stats;
