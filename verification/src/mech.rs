//! The boundary toward the external pin-export mechanism.
//!
//! Each function here wraps one call into the kernel-level file-based
//! mechanism for the pin whose numeric id it is given. Results are handed
//! back as plain values: successes carry at most a raw level, and a failure
//! is reduced to its kind, variant for variant.

use vstd::prelude::*;

use crate::error::MechFailure;
use crate::gpio::Direction;

verus! {

/// Relies on sysfs_gpio::Pin::is_exported (Pin::new only stores the id):
/// reports whether the kernel currently exposes the pin. The answer reflects
/// system state outside this process, so nothing is promised of it.
#[verifier::external_body]
pub(crate) fn is_exported(num: u64) -> bool {
    sysfs_gpio::Pin::new(num).is_exported()
}

/// Relies on sysfs_gpio::Pin::export: claims kernel-level access to the pin;
/// a pin that is already exported is left as it is and reported as success.
/// Whether the call succeeds depends on the system, so only the failure
/// taxonomy is carried over.
#[verifier::external_body]
pub(crate) fn export(num: u64) -> (r: Result<(), MechFailure>) {
    match sysfs_gpio::Pin::new(num).export() {
        Ok(()) => Ok(()),
        Err(sysfs_gpio::Error::Io(_)) => Err(MechFailure::Io),
        Err(sysfs_gpio::Error::Unexpected(_)) => Err(MechFailure::Unexpected),
        Err(sysfs_gpio::Error::InvalidPath(_)) => Err(MechFailure::InvalidPath),
        Err(sysfs_gpio::Error::Unsupported(_)) => Err(MechFailure::Unsupported),
    }
}

/// Relies on sysfs_gpio::Pin::unexport: releases kernel-level access to the
/// pin; a pin that is not exported is left as it is and reported as success.
/// Its failures are returned as values, never thrown, so the call does not
/// unwind.
#[verifier::external_body]
pub(crate) fn unexport(num: u64) -> (r: Result<(), MechFailure>)
    no_unwind
{
    match sysfs_gpio::Pin::new(num).unexport() {
        Ok(()) => Ok(()),
        Err(sysfs_gpio::Error::Io(_)) => Err(MechFailure::Io),
        Err(sysfs_gpio::Error::Unexpected(_)) => Err(MechFailure::Unexpected),
        Err(sysfs_gpio::Error::InvalidPath(_)) => Err(MechFailure::InvalidPath),
        Err(sysfs_gpio::Error::Unsupported(_)) => Err(MechFailure::Unsupported),
    }
}

/// Relies on sysfs_gpio::Pin::set_direction: places the pin into input or
/// output mode. Whether the call succeeds depends on the system, so only the
/// failure taxonomy is carried over.
#[verifier::external_body]
pub(crate) fn set_direction(num: u64, dir: Direction) -> (r: Result<(), MechFailure>) {
    let d = match dir {
        Direction::In => sysfs_gpio::Direction::In,
        Direction::Out => sysfs_gpio::Direction::Out,
    };
    match sysfs_gpio::Pin::new(num).set_direction(d) {
        Ok(()) => Ok(()),
        Err(sysfs_gpio::Error::Io(_)) => Err(MechFailure::Io),
        Err(sysfs_gpio::Error::Unexpected(_)) => Err(MechFailure::Unexpected),
        Err(sysfs_gpio::Error::InvalidPath(_)) => Err(MechFailure::InvalidPath),
        Err(sysfs_gpio::Error::Unsupported(_)) => Err(MechFailure::Unsupported),
    }
}

/// Relies on sysfs_gpio::Pin::get_value: reads the pin's logic level. Its
/// source returns success only for a raw reading of exactly "0" or "1", and
/// reports any other file content as a failure, so a successful result is 0
/// or 1.
#[verifier::external_body]
pub(crate) fn get_value(num: u64) -> (r: Result<u8, MechFailure>)
    ensures
        r matches Ok(v) ==> v == 0 || v == 1,
{
    match sysfs_gpio::Pin::new(num).get_value() {
        Ok(v) => Ok(v),
        Err(sysfs_gpio::Error::Io(_)) => Err(MechFailure::Io),
        Err(sysfs_gpio::Error::Unexpected(_)) => Err(MechFailure::Unexpected),
        Err(sysfs_gpio::Error::InvalidPath(_)) => Err(MechFailure::InvalidPath),
        Err(sysfs_gpio::Error::Unsupported(_)) => Err(MechFailure::Unsupported),
    }
}

/// Relies on sysfs_gpio::Pin::set_value: drives the pin low for a raw value
/// of 0 and high for any other raw value. Whether the call succeeds depends
/// on the system, so only the failure taxonomy is carried over.
#[verifier::external_body]
pub(crate) fn set_value(num: u64, value: u8) -> (r: Result<(), MechFailure>) {
    match sysfs_gpio::Pin::new(num).set_value(value) {
        Ok(()) => Ok(()),
        Err(sysfs_gpio::Error::Io(_)) => Err(MechFailure::Io),
        Err(sysfs_gpio::Error::Unexpected(_)) => Err(MechFailure::Unexpected),
        Err(sysfs_gpio::Error::InvalidPath(_)) => Err(MechFailure::InvalidPath),
        Err(sysfs_gpio::Error::Unsupported(_)) => Err(MechFailure::Unsupported),
    }
}

} // verus!
