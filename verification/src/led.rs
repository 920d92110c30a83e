//! The peripheral controller: one exclusively owned digital output line with
//! a logical state that mirrors the last level successfully written.

use vstd::prelude::*;
use crate::error::Error;

verus! {

/// The digital output capability the platform supplies. The controller owns
/// the implementation for the whole device session; no other component may
/// address the same line.
pub trait OutputDriver {
    /// Drive the line high (`true`) or low (`false`). Returns whether the
    /// write reached the hardware; a transient bus error returns `false`.
    fn write_level(&mut self, high: bool) -> bool;
}

/// One serialized call on the controller.
#[derive(Clone, Copy, Debug, PartialEq, Eq, Structural)]
pub enum LedOp {
    /// `set_state(on)`.
    Write(bool),
    /// `toggle()`.
    Toggle,
}

/// The hardware level one call asks for, given the logical state it starts
/// from.
pub open spec fn target_level(state: bool, op: LedOp) -> bool {
    match op {
        LedOp::Write(on) => on,
        LedOp::Toggle => !state,
    }
}

/// The logical state after one serialized call: the requested level if the
/// hardware write was applied, the old state (last known good) otherwise.
pub open spec fn step(state: bool, op: LedOp, applied: bool) -> bool {
    if applied {
        target_level(state, op)
    } else {
        state
    }
}

/// The logical state after a whole history of serialized calls, each paired
/// with whether its hardware write was applied.
pub open spec fn run_history(state: bool, calls: Seq<(LedOp, bool)>) -> bool
    decreases calls.len(),
{
    if calls.len() == 0 {
        state
    } else {
        step(run_history(state, calls.drop_last()), calls.last().0, calls.last().1)
    }
}

/// No lost updates. Every operation takes the controller exclusively, so any
/// run of calls from any number of callers is serialized into some total
/// order; this law says one more call moves the fold of that order by exactly
/// one `step`, so the final logical state is always the state implied by the
/// serialization order of the calls, never a partial interleaving.
pub proof fn lemma_history_extension(state: bool, calls: Seq<(LedOp, bool)>, c: (LedOp, bool))
    ensures
        run_history(state, calls.push(c)) == step(run_history(state, calls), c.0, c.1),
{
    assert(calls.push(c).drop_last() =~= calls);
    assert(calls.push(c).last() == c);
}

/// Writing a level twice is idempotent: the logical state (and with it the
/// mirrored hardware level) after both applied writes equals the state after
/// the first alone.
pub proof fn lemma_write_idempotent(state: bool, on: bool)
    ensures
        step(step(state, LedOp::Write(on), true), LedOp::Write(on), true)
            == step(state, LedOp::Write(on), true),
{
}

/// Two applied toggles cancel: the logical state returns to where it began.
pub proof fn lemma_toggle_toggle(state: bool)
    ensures
        step(step(state, LedOp::Toggle, true), LedOp::Toggle, true) == state,
{
}

/// The output lines this board can drive an indicator on.
pub open spec fn pin_supported(pin: u8) -> bool {
    pin == 2 || pin == 8 || pin == 10
}

/// Serialized, crash-safe access to one binary hardware output. The view of
/// a controller is its logical state: the last level successfully applied.
pub struct LedController<D: OutputDriver> {
    driver: D,
    pin: u8,
    state: bool,
}

impl<D: OutputDriver> View for LedController<D> {
    type V = bool;

    closed spec fn view(&self) -> bool {
        self.state
    }
}

impl<D: OutputDriver> LedController<D> {
    /// The output line this controller was built for.
    pub closed spec fn spec_pin(&self) -> u8 {
        self.pin
    }

    /// Claim the output line `pin`. The line identity is validated here:
    /// an unsupported identifier is a configuration error, and the driver is
    /// not touched. A fresh controller starts with logical state `false`,
    /// the level the line rests at after power-up.
    pub fn new(driver: D, pin: u8) -> (r: Result<Self, Error>)
        ensures
            r is Ok <==> pin_supported(pin),
            r matches Ok(c) ==> c@ == false && c.spec_pin() == pin,
            r matches Err(e) ==> e == Error::ConfigurationFailed,
    {
        if pin == 2 || pin == 8 || pin == 10 {
            Ok(LedController { driver, pin, state: false })
        } else {
            Err(Error::ConfigurationFailed)
        }
    }

    /// The logical state: the last level successfully applied to hardware.
    pub fn state(&self) -> (on: bool)
        ensures
            on == self@,
    {
        self.state
    }

    /// The output line identifier recorded at construction.
    pub fn pin(&self) -> (p: u8)
        ensures
            p == self.spec_pin(),
    {
        self.pin
    }

    /// Apply the requested level to the hardware line. On success the
    /// logical state becomes `on`; if the write fails, the call reports
    /// `HardwareFault` and the logical state keeps its last known good
    /// value.
    pub fn set_state(&mut self, on: bool) -> (r: Result<(), Error>)
        ensures
            final(self)@ == step(old(self)@, LedOp::Write(on), r is Ok),
            r is Ok ==> final(self)@ == on,
            r matches Err(e) ==> e == Error::HardwareFault && final(self)@ == old(self)@,
            final(self).spec_pin() == old(self).spec_pin(),
    {
        if self.driver.write_level(on) {
            self.state = on;
            Ok(())
        } else {
            Err(Error::HardwareFault)
        }
    }

    /// Flip the current level under the same exclusive-access discipline as
    /// `set_state`; failure semantics are identical.
    pub fn toggle(&mut self) -> (r: Result<(), Error>)
        ensures
            final(self)@ == step(old(self)@, LedOp::Toggle, r is Ok),
            r is Ok ==> final(self)@ == !old(self)@,
            r matches Err(e) ==> e == Error::HardwareFault && final(self)@ == old(self)@,
            final(self).spec_pin() == old(self).spec_pin(),
    {
        let target = !self.state;
        if self.driver.write_level(target) {
            self.state = target;
            Ok(())
        } else {
            Err(Error::HardwareFault)
        }
    }
}

} // verus!
