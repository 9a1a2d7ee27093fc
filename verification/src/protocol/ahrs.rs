//! Record shapes of the extended AHRS protocol that carry no scaled readings:
//! board identification and integration control.

use vstd::prelude::*;

verus! {

/// Identification of a board: model, hardware revision, firmware version and
/// the unique identifier burned into the part.
#[derive(Clone, Copy, Debug, Default, PartialEq, Eq)]
pub struct BoardID {
    pub type_: u8,
    pub hw_rev: u8,
    pub fw_ver_major: u8,
    pub fw_ver_minor: u8,
    pub fw_revision: i16,
    pub unique_id: [u8; 12],
}

/// A command to the board's integrator: an action byte (which accumulators to
/// reset) and its parameter.
#[derive(Clone, Copy, Debug, Default, PartialEq, Eq, Structural)]
pub struct IntegrationControl {
    pub action: u8,
    pub parameter: i32,
}

} // verus!
