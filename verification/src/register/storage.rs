//! The addressable records of interest in the board's register map.

use vstd::prelude::*;
use vstd::slice::slice_subrange;

use crate::protocol::{FromBuffer, FromBufferFallible};
use crate::register::packet::RegisterPacket;
use crate::serde::le_i16;
use crate::serde::le_u16;
use crate::serde::operation_status_clamped;
use crate::serde::read_i16;
use crate::serde::read_u16;
use crate::serde::CalibrationStatus;
use crate::serde::Capability;
use crate::serde::OperationStatus;
use crate::serde::Radians;
use crate::serde::SelfTestStatus;
use crate::serde::SensorStatus;
use crate::serde::CAL_STATUS_MASK;
use crate::serde::CAPABILITY_MASK;
use crate::serde::SELFTEST_STATUS_MASK;
use crate::serde::SENSOR_STATUS_MASK;

verus! {

/// A record type bound to one register address, byte length and decoder.
/// Reading the record is reading `length` bytes starting at `address` and
/// decoding them; the register map of the hardware owns any non-overlap
/// invariant between records.
pub trait Addressable: FromBufferFallible {
    /// The 7-bit register address the record starts at.
    spec fn spec_address() -> u8;

    /// How many bytes the record occupies.
    spec fn spec_len() -> u8;

    /// The record's register address.
    fn address() -> (r: u8)
        ensures
            r == Self::spec_address(),
            r < 0x80,
    ;

    /// The record's byte length; it equals the width its decoder consumes.
    fn len() -> (r: u8)
        ensures
            r == Self::spec_len(),
            r as nat == Self::buffer_len(),
    ;

    /// The read request that fetches this record.
    fn request() -> (p: RegisterPacket)
        ensures
            p.register == Self::spec_address(),
            p.value == Self::spec_len(),
            p.checksum == 0,
    {
        RegisterPacket::new(Self::address(), Self::len())
    }
}

/// Identification of the board: model, hardware revision and firmware
/// version.
#[derive(Clone, Copy, Debug, PartialEq, Eq, Structural)]
pub struct Identity {
    pub identity: u8,
    pub board_revision: u8,
    pub firmware_major_version: u8,
    pub firmware_minor_version: u8,
}

impl FromBuffer for Identity {
    open spec fn fixed_len() -> nat {
        4
    }

    open spec fn read_spec(b: Seq<u8>) -> Self {
        Identity {
            identity: b[0],
            board_revision: b[1],
            firmware_major_version: b[2],
            firmware_minor_version: b[3],
        }
    }

    fn read(buf: &[u8]) -> (r: Self) {
        Identity {
            identity: buf[0],
            board_revision: buf[1],
            firmware_major_version: buf[2],
            firmware_minor_version: buf[3],
        }
    }
}

impl Addressable for Identity {
    open spec fn spec_address() -> u8 {
        0x00
    }

    open spec fn spec_len() -> u8 {
        4
    }

    fn address() -> (r: u8) {
        0x00
    }

    fn len() -> (r: u8) {
        proof {
            assert(<Identity as FromBufferFallible>::buffer_len() == <Identity as FromBuffer>::fixed_len());
        }
        4
    }
}

/// The board's orientation quaternion: four signed-ratio components, two
/// bytes each.
#[derive(Clone, Copy, Debug, PartialEq, Eq, Structural)]
pub struct Quaternion {
    pub w: Radians,
    pub x: Radians,
    pub y: Radians,
    pub z: Radians,
}

impl FromBuffer for Quaternion {
    open spec fn fixed_len() -> nat {
        8
    }

    open spec fn read_spec(b: Seq<u8>) -> Self {
        Quaternion {
            w: Radians { raw: le_i16(b.subrange(0, 2)) },
            x: Radians { raw: le_i16(b.subrange(2, 4)) },
            y: Radians { raw: le_i16(b.subrange(4, 6)) },
            z: Radians { raw: le_i16(b.subrange(6, 8)) },
        }
    }

    fn read(buf: &[u8]) -> (r: Self) {
        Quaternion {
            w: Radians { raw: read_i16(slice_subrange(buf, 0, 2)) },
            x: Radians { raw: read_i16(slice_subrange(buf, 2, 4)) },
            y: Radians { raw: read_i16(slice_subrange(buf, 4, 6)) },
            z: Radians { raw: read_i16(slice_subrange(buf, 6, 8)) },
        }
    }
}

impl Addressable for Quaternion {
    open spec fn spec_address() -> u8 {
        0x2A
    }

    open spec fn spec_len() -> u8 {
        8
    }

    fn address() -> (r: u8) {
        0x2A
    }

    fn len() -> (r: u8) {
        proof {
            assert(<Quaternion as FromBufferFallible>::buffer_len() == <Quaternion as FromBuffer>::fixed_len());
        }
        8
    }
}

/// Configuration and limits of the board: update rate in hertz,
/// accelerometer full-scale range in G and gyroscope full-scale range in
/// degrees per second.
#[derive(Clone, Copy, Debug, PartialEq, Eq, Structural)]
pub struct Config {
    pub update_rate: u8,
    pub accel_fsr: u8,
    pub gyro_fsr: u16,
}

impl FromBuffer for Config {
    open spec fn fixed_len() -> nat {
        4
    }

    open spec fn read_spec(b: Seq<u8>) -> Self {
        Config { update_rate: b[0], accel_fsr: b[1], gyro_fsr: le_u16(b.subrange(2, 4)) }
    }

    fn read(buf: &[u8]) -> (r: Self) {
        Config {
            update_rate: buf[0],
            accel_fsr: buf[1],
            gyro_fsr: read_u16(slice_subrange(buf, 2, 4)),
        }
    }
}

impl Addressable for Config {
    open spec fn spec_address() -> u8 {
        0x04
    }

    open spec fn spec_len() -> u8 {
        4
    }

    fn address() -> (r: u8) {
        0x04
    }

    fn len() -> (r: u8) {
        proof {
            assert(<Config as FromBufferFallible>::buffer_len() == <Config as FromBuffer>::fixed_len());
        }
        4
    }
}

/// The composite status block of the board. Every sub-field decode is total:
/// the operating status clamps and the flag sets truncate, so any nine bytes
/// decode. The sub-field offsets are data of the register map, kept here in
/// one place so a corrected map needs no change to any decode logic.
#[derive(Clone, Copy, Debug, PartialEq, Eq, Structural)]
pub struct Status {
    pub operation_status: OperationStatus,
    pub calibration_status: CalibrationStatus,
    pub self_test_status: SelfTestStatus,
    pub capabilities: Capability,
    pub sensor_status: SensorStatus,
}

impl FromBufferFallible for Status {
    open spec fn buffer_len() -> nat {
        9
    }

    open spec fn decode_spec(b: Seq<u8>) -> Option<Self> {
        Some(
            Status {
                operation_status: operation_status_clamped(b[0]),
                calibration_status: CalibrationStatus { bits: b[1] & CAL_STATUS_MASK },
                self_test_status: SelfTestStatus { bits: b[2] & SELFTEST_STATUS_MASK },
                capabilities: Capability { bits: b[3] & CAPABILITY_MASK },
                sensor_status: SensorStatus { bits: b[4] & SENSOR_STATUS_MASK },
            },
        )
    }

    fn try_read(buf: &[u8]) -> (r: Option<Self>) {
        Some(
            Status {
                operation_status: OperationStatus::read(slice_subrange(buf, 0, 1)),
                calibration_status: CalibrationStatus::read(slice_subrange(buf, 1, 2)),
                self_test_status: SelfTestStatus::read(slice_subrange(buf, 2, 3)),
                capabilities: Capability::read(slice_subrange(buf, 3, 4)),
                sensor_status: SensorStatus::read(slice_subrange(buf, 4, 9)),
            },
        )
    }
}

impl Addressable for Status {
    open spec fn spec_address() -> u8 {
        0x08
    }

    open spec fn spec_len() -> u8 {
        9
    }

    fn address() -> (r: u8) {
        0x08
    }

    fn len() -> (r: u8) {
        9
    }
}

} // verus!
