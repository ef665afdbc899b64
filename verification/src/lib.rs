//! Digital I/O over a single hardware pin exposed through the kernel's
//! file-based export mechanism.
//!
//! A caller acquires a pin by numeric identifier, switches it between input
//! and output direction, reads its logic level, and drives it high or low.
//! The controller records whether the pin was already under export control
//! when it was acquired, and on release unexports the pin exactly when this
//! controller was the one that exported it.

pub mod digital_io;
pub mod error;
pub mod gpio;
pub mod mech;
