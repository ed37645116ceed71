//! The drivers, grouped by the kind of signal they handle.

pub mod analog_input;
pub mod analog_output;
pub mod binary_output;
