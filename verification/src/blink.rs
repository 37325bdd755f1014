//! The blink task: sleep for the current half-period, then toggle the LED.
//!
//! The task owns the LED outright; the only thing it shares with the input
//! task is the rate register, which it re-reads on every iteration so that
//! a rate change takes effect on the very next toggle.  Each iteration is
//! split at its one suspension point: [`BlinkTask::begin_sleep`] reads the
//! period and tells the caller how long to sleep, and once the sleep has
//! elapsed [`BlinkTask::finish_sleep`] toggles the LED.

use crate::register::RateRegister;
use vstd::prelude::*;

verus! {

/// The blink task's whole private state: whether its LED is lit.
pub struct BlinkTask {
    led_on: bool,
}

impl BlinkTask {
    /// Whether the LED is currently driven high.
    pub closed spec fn led_on(self) -> bool {
        self.led_on
    }

    /// Start the task with the LED driven low.
    pub fn new() -> (r: BlinkTask)
        ensures
            !r.led_on(),
    {
        BlinkTask { led_on: false }
    }

    /// Begin one iteration: read the half-period afresh from the shared
    /// register — never a cached copy — and hand it to the caller as the
    /// length of the coming sleep, in milliseconds.
    pub fn begin_sleep(&self, reg: &RateRegister) -> (d: u32)
        requires
            reg.wf(),
        ensures
            d == reg.current(),
            reg.writes().contains(d),
            d > 0,
    {
        reg.load()
    }

    /// Finish the iteration once the sleep has elapsed: toggle the LED and
    /// report the level the line must now be driven to.
    pub fn finish_sleep(&mut self) -> (on: bool)
        ensures
            final(self).led_on() == !old(self).led_on(),
            on == final(self).led_on(),
    {
        self.led_on = !self.led_on;
        self.led_on
    }

    /// The level the LED line is currently driven to.
    pub fn led_is_on(&self) -> (on: bool)
        ensures
            on == self.led_on(),
    {
        self.led_on
    }
}

} // verus!
