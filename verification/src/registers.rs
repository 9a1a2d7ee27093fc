//! The board's register map and the raw decode helpers of the register
//! protocol.
//!
//! All multi-byte registers are little-endian and signed registers are
//! two's-complement. The addresses are data of the hardware's register map,
//! supplied here as configuration: correcting the map touches no decode
//! logic.

use vstd::prelude::*;

use crate::protocol::{crc7, get_crc};
use crate::serde::{le_i16, le_i32, le_u16, le_u32, read_i16, read_i32, read_u16, read_u32};

verus! {

/// Board model identifier.
pub const NAVX_REG_WHOAMI: usize = 0x00;

/// Hardware revision.
pub const NAVX_REG_HW_REV: usize = 0x01;

/// Major firmware version.
pub const NAVX_REG_FW_VER_MAJOR: usize = 0x02;

/// Minor firmware version.
pub const NAVX_REG_FW_VER_MINOR: usize = 0x03;

/// Update rate in hertz, 4 to 50; the one read-write register of this block.
pub const NAVX_REG_UPDATE_RATE_HZ: usize = 0x04;

/// Accelerometer full-scale range in units of G.
pub const NAVX_REG_ACCEL_FSR_G: usize = 0x05;

/// Lower byte of the gyroscope full-scale range in degrees per second:
/// 250, 500, 1000 or 2000.
pub const NAVX_REG_GYRO_FSR_DPS_L: usize = 0x06;

/// Operating status.
pub const NAVX_REG_OP_STATUS: usize = 0x08;

/// Calibration status.
pub const NAVX_REG_CAL_STATUS: usize = 0x09;

/// Self-test status.
pub const NAVX_REG_SELFTEST_STATUS: usize = 0x0A;

/// Lower byte of the capability flags.
pub const NAVX_REG_CAPABILITY_FLAGS_L: usize = 0x0B;

/// Lower byte of the sensor status.
pub const NAVX_REG_SENSOR_STATUS_L: usize = 0x10;

/// Upper byte of the sensor status.
pub const NAVX_REG_SENSOR_STATUS_H: usize = 0x11;

/// Lowest byte of the timestamp.
pub const NAVX_REG_TIMESTAMP_L_L: usize = 0x12;

/// Lower byte of the yaw angle, -180.00 to 180.00 in signed hundredths.
pub const NAVX_REG_YAW_L: usize = 0x16;

/// Lower byte of the roll angle, in signed hundredths.
pub const NAVX_REG_ROLL_L: usize = 0x18;

/// Lower byte of the pitch angle, in signed hundredths.
pub const NAVX_REG_PITCH_L: usize = 0x1A;

/// Lower byte of the compass heading, 0.00 to 360.00 in unsigned hundredths.
pub const NAVX_REG_HEADING_L: usize = 0x1C;

/// Lower byte of the fused heading, in unsigned hundredths.
pub const NAVX_REG_FUSED_HEADING_L: usize = 0x1E;

/// Altitude in meters, 16.16 fixed-point.
pub const NAVX_REG_ALTITUDE_D_L: usize = 0x22;

/// Lower byte of the world-frame linear acceleration along x, in units of
/// G in signed thousandths.
pub const NAVX_REG_LINEAR_ACC_X_L: usize = 0x24;

/// Lower byte of the world-frame linear acceleration along y.
pub const NAVX_REG_LINEAR_ACC_Y_L: usize = 0x26;

/// Lower byte of the world-frame linear acceleration along z.
pub const NAVX_REG_LINEAR_ACC_Z_L: usize = 0x28;

/// Lower byte of the quaternion w component, a signed ratio of -1 to 1.
pub const NAVX_REG_QUAT_W_L: usize = 0x2A;

/// Lower byte of the quaternion x component.
pub const NAVX_REG_QUAT_X_L: usize = 0x2C;

/// Lower byte of the quaternion y component.
pub const NAVX_REG_QUAT_Y_L: usize = 0x2E;

/// Lower byte of the quaternion z component.
pub const NAVX_REG_QUAT_Z_L: usize = 0x30;

/// Lower byte of the sensor die temperature, -150 to 150 degrees Celsius in
/// signed hundredths.
pub const NAVX_REG_MPU_TEMP_C_L: usize = 0x32;

/// Lower byte of the calibrated angular rotation around x, in device units.
pub const NAVX_REG_GYRO_X_L: usize = 0x34;

/// Lower byte of the calibrated angular rotation around y.
pub const NAVX_REG_GYRO_Y_L: usize = 0x36;

/// Lower byte of the calibrated angular rotation around z.
pub const NAVX_REG_GYRO_Z_L: usize = 0x38;

/// Lower byte of the calibrated acceleration along x, in device units.
pub const NAVX_REG_ACC_X_L: usize = 0x3A;

/// Lower byte of the calibrated acceleration along y.
pub const NAVX_REG_ACC_Y_L: usize = 0x3C;

/// Lower byte of the calibrated acceleration along z.
pub const NAVX_REG_ACC_Z_L: usize = 0x3E;

/// Lower byte of the calibrated magnetometer reading along x, one unit being
/// 0.15 microtesla.
pub const NAVX_REG_MAG_X_L: usize = 0x40;

/// Calibrated pressure in millibars, 16.16 fixed-point.
pub const NAVX_REG_PRESSURE_DL: usize = 0x48;

/// Upper byte of the quaternion z offset, a signed ratio of -1 to 1.
pub const NAVX_REG_QUAT_OFFSET_Z_H: u8 = 0x55;

/// Integration control; write-only.
pub const NAVX_REG_INTEGRATION_CTL: u8 = 0x56;

/// Lowest byte of the integrated velocity along x, in meters per second.
pub const NAVX_REG_VEL_X_I_L: usize = 0x58;

/// Lowest byte of the integrated velocity along y.
pub const NAVX_REG_VEL_Y_I_L: usize = 0x5C;

/// Lowest byte of the integrated velocity along z.
pub const NAVX_REG_VEL_Z_I_L: usize = 0x60;

/// Lowest byte of the integrated displacement along x, in meters.
pub const NAVX_REG_DISP_X_I_L: usize = 0x64;

/// Lowest byte of the integrated displacement along y.
pub const NAVX_REG_DISP_Y_I_L: usize = 0x68;

/// Lowest byte of the integrated displacement along z.
pub const NAVX_REG_DISP_Z_I_L: usize = 0x6C;

/// Highest byte of the integrated displacement along z.
pub const NAVX_REG_DISP_Z_D_H: usize = 0x6F;

/// The last mapped register.
pub const NAVX_REG_LAST: usize = NAVX_REG_DISP_Z_D_H;

/// Magnetometer calibration complete.
pub const NAVX_CAL_STATUS_MAG_CAL_COMPLETE: u8 = 0x04;

/// The board is moving.
pub const NAVX_SENSOR_STATUS_MOVING: u8 = 0x01;

/// The yaw reading has stabilised.
pub const NAVX_SENSOR_STATUS_YAW_STABLE: u8 = 0x02;

/// A magnetic disturbance is being observed.
pub const NAVX_SENSOR_STATUS_MAG_DISTURBANCE: u8 = 0x04;

/// The altitude reading is valid.
pub const NAVX_SENSOR_STATUS_ALTITUDE_VALID: u8 = 0x08;

/// The board supports configurable mounting orientation.
pub const NAVX_CAPABILITY_FLAG_OMNIMOUNT: i16 = 0x0004;

/// The board integrates velocity and displacement.
pub const NAVX_CAPABILITY_FLAG_VEL_AND_DISP: i16 = 0x0040;

/// The board supports yaw reset.
pub const NAVX_CAPABILITY_FLAG_YAW_RESET: i16 = 0x0080;

/// The board timestamps its position updates.
pub const NAVX_CAPABILITY_FLAG_AHRSPOS_TS: i16 = 0x0100;

/// Reset the integrated x displacement.
pub const NAVX_INTEGRATION_CTL_RESET_DISP_X: u8 = 0x08;

/// Reset the integrated y displacement.
pub const NAVX_INTEGRATION_CTL_RESET_DISP_Y: u8 = 0x10;

/// Reset the integrated z displacement.
pub const NAVX_INTEGRATION_CTL_RESET_DISP_Z: u8 = 0x20;

/// Reset the yaw rotation.
pub const NAVX_INTEGRATION_CTL_RESET_YAW: u8 = 0x80;

/// Decode an unsigned 16-bit little-endian register value.
pub fn dec_prot_u16(b: &[u8]) -> (r: u16)
    requires
        b@.len() >= 2,
    ensures
        r == le_u16(b@),
{
    read_u16(b)
}

/// Decode a signed 16-bit little-endian register value.
pub fn dec_prot_i16(b: &[u8]) -> (r: i16)
    requires
        b@.len() >= 2,
    ensures
        r == le_i16(b@),
{
    read_i16(b)
}

/// Decode an unsigned 32-bit little-endian register value.
pub fn dec_prot_u32(b: &[u8]) -> (r: u32)
    requires
        b@.len() >= 4,
    ensures
        r == le_u32(b@),
{
    read_u32(b)
}

/// Decode a signed 32-bit little-endian register value.
pub fn dec_prot_i32(b: &[u8]) -> (r: i32)
    requires
        b@.len() >= 4,
    ensures
        r == le_i32(b@),
{
    read_i32(b)
}

/// Checksum of the first `length` bytes of `message`, with the length given
/// as the protocol carries it.
#[allow(non_snake_case)]
pub fn getCRC(message: &[u8], length: u8) -> (r: u8)
    requires
        length as nat <= message@.len(),
    ensures
        r == crc7(message@.take(length as int)),
{
    get_crc(message, length as usize)
}

} // verus!
