//! The pin controller: binds a numeric pin id to the external export
//! mechanism, records whether the pin was already under external control at
//! acquisition time, delegates direction and value operations to the
//! mechanism, and conditionally unexports the pin when it is released.

use vstd::pervasive::unreached;
use vstd::prelude::*;

use crate::digital_io::{DigitalIO, DigitalIn, DigitalOut};
use crate::error::{error_of, mapped_error, Error, MechFailure};
use crate::mech;

verus! {

/// A direction setting for a pin: input (readable) or output (drivable).
#[derive(Clone, Copy, Debug, PartialEq, Eq)]
pub enum Direction {
    /// The pin behaves as an input.
    In,
    /// The pin behaves as an output.
    Out,
}

/// A controller holding the in-process claim on one physical pin.
///
/// Acquiring a controller exports the pin; when the controller's owning
/// scope ends, the pin is unexported exactly when this controller was the
/// one that exported it. Direction and logic level are not cached here:
/// every operation queries or sets them directly against the mechanism, so
/// the controller holds no data that could drift out of sync with hardware.
pub struct GPIO {
    /// The numeric identifier of the physical pin.
    pub pin_id: u64,
    /// Whether the pin was under export control before this controller
    /// exported it, captured at acquisition time.
    pub was_already_exported: bool,
}

/// Outcome of an operation that only signals success: a mechanism success is
/// passed through, and a mechanism failure is classified into the error
/// taxonomy with no kind reclassified.
pub fn op_outcome(r: Result<(), MechFailure>) -> (out: Result<(), Error>)
    ensures
        r is Ok ==> out is Ok,
        r matches Err(k) ==> (out matches Err(e) && e == mapped_error(k)),
{
    match r {
        Ok(()) => Ok(()),
        Err(k) => Err(error_of(k)),
    }
}

/// Outcome of a value read: a raw level of 1 is high and 0 is low, and a
/// mechanism failure is classified into the error taxonomy. Any other raw
/// level is a violation of the mechanism's contract and is a fatal
/// condition, not a recoverable error — here it is provably unreachable.
pub fn read_outcome(raw: Result<u8, MechFailure>) -> (out: Result<bool, Error>)
    requires
        raw matches Ok(v) ==> v == 0 || v == 1,
    ensures
        raw matches Ok(v) ==> (out matches Ok(level) && level == (v == 1)),
        raw matches Err(k) ==> (out matches Err(e) && e == mapped_error(k)),
{
    match raw {
        Ok(0) => Ok(false),
        Ok(1) => Ok(true),
        Ok(_) => unreached(),
        Err(k) => Err(error_of(k)),
    }
}

impl GPIO {
    /// Acquire pin `num`: record whether the pin is already exported, then
    /// export it. On a mechanism failure the whole acquisition fails with
    /// the classified error and no controller exists, so the caller has no
    /// cleanup obligation on that path.
    ///
    /// Concurrent acquisition is deliberately unguarded: two live
    /// controllers for the same pin id can race on export and unexport, and
    /// callers are responsible for keeping at most one logical owner per
    /// physical pin at a time.
    pub fn new(num: u64) -> (r: Result<GPIO, Error>)
        ensures
            r matches Ok(g) ==> g.pin_id == num,
    {
        let pre_exported = mech::is_exported(num);
        let export_result = mech::export(num);
        Self::finish_acquire(num, pre_exported, export_result)
    }

    /// The decision step of acquisition, over the mechanism's two answers: a
    /// successful export yields the fully initialized controller, recording
    /// the pre-acquisition export state as it was found, and a failed export
    /// yields the classified error and no controller.
    pub fn finish_acquire(
        num: u64,
        pre_exported: bool,
        export_result: Result<(), MechFailure>,
    ) -> (r: Result<GPIO, Error>)
        ensures
            export_result is Ok ==> (r matches Ok(g) && g.pin_id == num
                && g.was_already_exported == pre_exported),
            export_result matches Err(k) ==> (r matches Err(e) && e == mapped_error(k)),
    {
        match export_result {
            Ok(()) => Ok(
                GPIO { pin_id: num, was_already_exported: pre_exported },
            ),
            Err(k) => Err(error_of(k)),
        }
    }

    /// True exactly when release must issue an unexport call: the controller
    /// exported the pin itself rather than finding it already under export
    /// control, so it never releases a pin another owner had claimed first.
    pub fn should_release(&self) -> (b: bool)
        ensures
            b == !self.was_already_exported,
        no_unwind
    {
        !self.was_already_exported
    }

    /// The release step run when the controller's owning scope ends: issue
    /// one unexport call exactly when this controller exported the pin
    /// itself. The call's failure is deliberately discarded — release may
    /// run during cleanup paths where no caller can receive an error.
    pub(crate) fn release(&self)
        no_unwind
    {
        if self.should_release() {
            let _ = mech::unexport(self.pin_id);
        }
    }
}

impl DigitalIn for GPIO {
    /// Read the pin's logic level from the mechanism: `true` exactly when it
    /// reports level 1, `false` exactly when it reports level 0.
    fn read(&self) -> (r: Result<bool, Error>) {
        read_outcome(mech::get_value(self.pin_id))
    }

    /// Place the pin into input mode; the controller itself is unchanged.
    fn set_to_input(&mut self) -> (r: Result<(), Error>)
        ensures
            *final(self) == *old(self),
    {
        op_outcome(mech::set_direction(self.pin_id, Direction::In))
    }
}

impl DigitalOut for GPIO {
    /// Drive the pin low; the controller itself is unchanged.
    fn set_low(&mut self) -> (r: Result<(), Error>)
        ensures
            *final(self) == *old(self),
    {
        op_outcome(mech::set_value(self.pin_id, 0))
    }

    /// Drive the pin high; the controller itself is unchanged.
    fn set_high(&mut self) -> (r: Result<(), Error>)
        ensures
            *final(self) == *old(self),
    {
        op_outcome(mech::set_value(self.pin_id, 1))
    }

    /// Place the pin into output mode; the controller itself is unchanged.
    fn set_to_output(&mut self) -> (r: Result<(), Error>)
        ensures
            *final(self) == *old(self),
    {
        op_outcome(mech::set_direction(self.pin_id, Direction::Out))
    }
}

impl DigitalIO for GPIO {
}

impl Drop for GPIO {
    /// Opaque to the verifier, which does not take a destructor body that
    /// makes calls: the body only forwards to the verified `release` above,
    /// which holds the whole release logic.
    #[verifier::external_body]
    fn drop(&mut self)
        opens_invariants none
        no_unwind
    {
        self.release();
    }
}

} // verus!
