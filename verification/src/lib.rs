//! Verified core of a Hindmarsh-Rose (second variant) neuron simulation
//! unit: a discrete-time state machine that a real-time host ticks.
//!
//! Every real-valued quantity is held as the bit pattern of an IEEE-754
//! double (`u64`), so the discrete logic of the unit — classification and
//! comparison of values, step-size selection from the calibrated table,
//! the configuration/reset policy, input sanitization, and the per-tick
//! step-count bounds — is specified and proved exactly.  The floating-point
//! arithmetic itself (the Runge-Kutta integration and the timing quotients)
//! is performed by the embedding layer, which hands its results back to
//! this core as plain bit patterns.

pub mod fbits;
pub mod neuron;
pub mod strcmp;
pub mod table;
