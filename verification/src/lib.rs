//! Register codecs, measurement sequencing and output timing for an
//! IO-expander board: a differential voltage ADC and a differential
//! capacitance sensor on a shared two-wire bus, a pair of cascaded shift
//! registers driven over three digital lines, and pulse-width-modulated
//! outputs.
//!
//! Nothing here touches a bus, a pin or a timer. Each driver says which
//! bytes to send, how long to wait and what a reply means; the caller
//! performs the transfers.

#![allow(unused_imports)]

pub mod iox;
