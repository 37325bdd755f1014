//! Concurrency core of a button-controlled LED blinker.
//!
//! Two cooperatively scheduled tasks share one word of state: an input task
//! watches a button, halves the blink half-period on every press (resetting
//! to the default once halving would fall below a floor) and reports the
//! change over a serial line; a blink task re-reads the period on every
//! iteration, sleeps for it, and toggles the LED.  This crate holds the
//! decisions of both tasks and the shared register; the hardware actions
//! (waiting on a pin, sleeping, writing to the serial port) are returned to
//! the caller as values and performed outside.

pub mod blink;
pub mod input;
pub mod rate;
pub mod register;
