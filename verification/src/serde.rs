//! Decoders shared by both protocol variants: little-endian integers,
//! fixed-point scalars, text-encoded numbers, bit-flag sets, clamped
//! enumerations and the three-axis vector decode.
//!
//! All multi-byte registers are little-endian and signed registers are
//! two's-complement. Every binary decoder is total over any span of the
//! required width: no bit pattern alone makes a decode fail.

use vstd::prelude::*;
use vstd::slice::slice_subrange;

use crate::protocol::{FromBuffer, FromBufferFallible};

verus! {

/// The unsigned 16-bit value held little-endian in the first two bytes.
pub open spec fn le_u16(b: Seq<u8>) -> u16
    recommends
        b.len() >= 2,
{
    (b[0] + b[1] * 0x100) as u16
}

/// The signed 16-bit value held little-endian in the first two bytes.
pub open spec fn le_i16(b: Seq<u8>) -> i16 {
    le_u16(b) as i16
}

/// The unsigned 32-bit value held little-endian in the first four bytes.
pub open spec fn le_u32(b: Seq<u8>) -> u32
    recommends
        b.len() >= 4,
{
    (b[0] + b[1] * 0x100 + b[2] * 0x10000 + b[3] * 0x1000000) as u32
}

/// The signed 32-bit value held little-endian in the first four bytes.
pub open spec fn le_i32(b: Seq<u8>) -> i32 {
    le_u32(b) as i32
}

/// Read the single byte a one-byte register holds.
pub fn read_u8(buf: &[u8]) -> (r: u8)
    requires
        buf@.len() >= 1,
    ensures
        r == buf@[0],
{
    buf[0]
}

/// Read an unsigned 16-bit little-endian register value.
pub fn read_u16(buf: &[u8]) -> (r: u16)
    requires
        buf@.len() >= 2,
    ensures
        r == le_u16(buf@),
{
    buf[0] as u16 + (buf[1] as u16) * 0x100
}

/// Read a signed 16-bit little-endian register value.
pub fn read_i16(buf: &[u8]) -> (r: i16)
    requires
        buf@.len() >= 2,
    ensures
        r == le_i16(buf@),
{
    read_u16(buf) as i16
}

/// Read an unsigned 32-bit little-endian register value.
pub fn read_u32(buf: &[u8]) -> (r: u32)
    requires
        buf@.len() >= 4,
    ensures
        r == le_u32(buf@),
{
    buf[0] as u32 + (buf[1] as u32) * 0x100 + (buf[2] as u32) * 0x10000 + (buf[3] as u32)
        * 0x1000000
}

/// Read a signed 32-bit little-endian register value.
pub fn read_i32(buf: &[u8]) -> (r: i32)
    requires
        buf@.len() >= 4,
    ensures
        r == le_i32(buf@),
{
    read_u32(buf) as i32
}

/// A signed reading in hundredths: the physical value is `raw / 100`,
/// covering -327.68 to 327.67.
#[derive(Clone, Copy, Debug, PartialEq, Eq, Structural)]
pub struct Hundredths {
    pub raw: i16,
}

/// An unsigned reading in hundredths: the physical value is `raw / 100`,
/// covering 0 to 655.35.
#[derive(Clone, Copy, Debug, PartialEq, Eq, Structural)]
pub struct UnsignedHundredths {
    pub raw: u16,
}

/// A signed reading in thousandths: the physical value is `raw / 1000`,
/// covering -32.768 to 32.767.
#[derive(Clone, Copy, Debug, PartialEq, Eq, Structural)]
pub struct Thousandths {
    pub raw: i16,
}

/// A signed ratio scaled to an angle: the physical value in radians is
/// `raw * pi / 16384`, so 16384 stands for a full ratio of one.
#[derive(Clone, Copy, Debug, PartialEq, Eq, Structural)]
pub struct Radians {
    pub raw: i16,
}

/// The denominator of the ratio encoding behind [`Radians`].
pub const RADIANS_SCALE: u16 = 16384;

/// A 16.16 fixed-point reading: the physical value is `raw / Q1616_SCALE`.
/// The scale is pinned here (and by a regression test) to the power of two,
/// since any drift from `2^16` would silently rescale every integrated
/// velocity, displacement and altitude reading.
#[derive(Clone, Copy, Debug, PartialEq, Eq, Structural)]
pub struct Q1616 {
    pub raw: u32,
}

/// The denominator of the 16.16 fixed-point encoding.
pub const Q1616_SCALE: u32 = 65536;

/// Read a signed-hundredths register value.
pub fn read_hundredth(buf: &[u8]) -> (r: Hundredths)
    requires
        buf@.len() >= 2,
    ensures
        r.raw == le_i16(buf@),
{
    Hundredths { raw: read_i16(buf) }
}

/// Read an unsigned-hundredths register value.
pub fn read_uhundredth(buf: &[u8]) -> (r: UnsignedHundredths)
    requires
        buf@.len() >= 2,
    ensures
        r.raw == le_u16(buf@),
{
    UnsignedHundredths { raw: read_u16(buf) }
}

/// Read a signed-thousandths register value.
pub fn read_thousandth(buf: &[u8]) -> (r: Thousandths)
    requires
        buf@.len() >= 2,
    ensures
        r.raw == le_i16(buf@),
{
    Thousandths { raw: read_i16(buf) }
}

/// Read a signed-ratio angle register value.
pub fn read_radians(buf: &[u8]) -> (r: Radians)
    requires
        buf@.len() >= 2,
    ensures
        r.raw == le_i16(buf@),
{
    Radians { raw: read_i16(buf) }
}

/// Read a 16.16 fixed-point register value.
pub fn read_q1616(buf: &[u8]) -> (r: Q1616)
    requires
        buf@.len() >= 4,
    ensures
        r.raw == le_u32(buf@),
{
    Q1616 { raw: read_u32(buf) }
}

/// Whether a byte is an ASCII decimal digit.
pub open spec fn is_digit(c: u8) -> bool {
    0x30 <= c <= 0x39
}

/// The value of an ASCII decimal digit.
pub open spec fn digit_val(c: u8) -> u8
    recommends
        is_digit(c),
{
    (c - 0x30) as u8
}

/// Whether a byte is an ASCII hexadecimal digit, upper or lower case.
pub open spec fn is_hex_digit(c: u8) -> bool {
    is_digit(c) || (0x41 <= c <= 0x46) || (0x61 <= c <= 0x66)
}

/// The value of an ASCII hexadecimal digit.
pub open spec fn hex_val(c: u8) -> u8
    recommends
        is_hex_digit(c),
{
    if is_digit(c) {
        digit_val(c)
    } else if 0x41 <= c <= 0x46 {
        (c - 0x41 + 10) as u8
    } else {
        (c - 0x61 + 10) as u8
    }
}

/// The byte encoded as exactly two hexadecimal text characters, or nothing
/// when the span is not two hexadecimal digits.
pub open spec fn hex_byte(s: Seq<u8>) -> Option<u8> {
    if s.len() == 2 && is_hex_digit(s[0]) && is_hex_digit(s[1]) {
        Some((hex_val(s[0]) * 16 + hex_val(s[1])) as u8)
    } else {
        None
    }
}

/// The 16-bit value encoded as exactly four hexadecimal text characters, or
/// nothing when the span is not four hexadecimal digits.
pub open spec fn hex_word(s: Seq<u8>) -> Option<u16> {
    if s.len() == 4 && is_hex_digit(s[0]) && is_hex_digit(s[1]) && is_hex_digit(s[2])
        && is_hex_digit(s[3]) {
        Some(
            (hex_val(s[0]) * 0x1000 + hex_val(s[1]) * 0x100 + hex_val(s[2]) * 0x10 + hex_val(
                s[3],
            )) as u16,
        )
    } else {
        None
    }
}

/// Whether an exec byte is a hexadecimal digit.
fn hex_digit_exec(c: u8) -> (r: Option<u8>)
    ensures
        r is Some <==> is_hex_digit(c),
        r is Some ==> r->0 == hex_val(c),
{
    if 0x30 <= c && c <= 0x39 {
        Some(c - 0x30)
    } else if 0x41 <= c && c <= 0x46 {
        Some(c - 0x41 + 10)
    } else if 0x61 <= c && c <= 0x66 {
        Some(c - 0x61 + 10)
    } else {
        None
    }
}

/// Parse a byte written as two hexadecimal text characters.
pub fn read_byte(buf: &[u8]) -> (r: Option<u8>)
    ensures
        r == hex_byte(buf@),
{
    if buf.len() != 2 {
        return None;
    }
    let hi = match hex_digit_exec(buf[0]) {
        Some(v) => v,
        None => { return None; },
    };
    let lo = match hex_digit_exec(buf[1]) {
        Some(v) => v,
        None => { return None; },
    };
    Some(hi * 16 + lo)
}

/// Parse a 16-bit value written as four hexadecimal text characters.
pub fn read_int(buf: &[u8]) -> (r: Option<u16>)
    ensures
        r == hex_word(buf@),
{
    if buf.len() != 4 {
        return None;
    }
    let d0 = match hex_digit_exec(buf[0]) {
        Some(v) => v,
        None => { return None; },
    };
    let d1 = match hex_digit_exec(buf[1]) {
        Some(v) => v,
        None => { return None; },
    };
    let d2 = match hex_digit_exec(buf[2]) {
        Some(v) => v,
        None => { return None; },
    };
    let d3 = match hex_digit_exec(buf[3]) {
        Some(v) => v,
        None => { return None; },
    };
    Some((d0 as u16) * 0x1000 + (d1 as u16) * 0x100 + (d2 as u16) * 0x10 + (d3 as u16))
}

/// A signed decimal reading parsed from text, held in hundredths: the
/// physical value is `raw / 100`.
#[derive(Clone, Copy, Debug, PartialEq, Eq, Structural)]
pub struct Decimal {
    pub raw: i32,
}

/// The value, in hundredths, of the seven-character text form
/// `[- ]ddd.dd`: a minus sign or a space, three integer digits, a point and
/// two fractional digits. Anything else is nothing.
pub open spec fn decimal_text(s: Seq<u8>) -> Option<i32> {
    if s.len() == 7 && (s[0] == 0x2D || s[0] == 0x20) && is_digit(s[1]) && is_digit(s[2])
        && is_digit(s[3]) && s[4] == 0x2E && is_digit(s[5]) && is_digit(s[6]) {
        let mag = digit_val(s[1]) * 10000 + digit_val(s[2]) * 1000 + digit_val(s[3]) * 100
            + digit_val(s[5]) * 10 + digit_val(s[6]);
        Some((if s[0] == 0x2D { -mag } else { mag as int }) as i32)
    } else {
        None
    }
}

/// Parse the seven-character decimal text form into hundredths.
pub fn read_decimal(buf: &[u8]) -> (r: Option<Decimal>)
    ensures
        match r {
            Some(d) => decimal_text(buf@) == Some(d.raw),
            None => decimal_text(buf@) is None,
        },
{
    if buf.len() != 7 {
        return None;
    }
    let sign = buf[0];
    if sign != 0x2D && sign != 0x20 {
        return None;
    }
    if buf[4] != 0x2E {
        return None;
    }
    let d1 = match hex_digit_exec(buf[1]) {
        Some(v) if v < 10 => v,
        _ => { return None; },
    };
    let d2 = match hex_digit_exec(buf[2]) {
        Some(v) if v < 10 => v,
        _ => { return None; },
    };
    let d3 = match hex_digit_exec(buf[3]) {
        Some(v) if v < 10 => v,
        _ => { return None; },
    };
    let d5 = match hex_digit_exec(buf[5]) {
        Some(v) if v < 10 => v,
        _ => { return None; },
    };
    let d6 = match hex_digit_exec(buf[6]) {
        Some(v) if v < 10 => v,
        _ => { return None; },
    };
    let mag: i32 = (d1 as i32) * 10000 + (d2 as i32) * 1000 + (d3 as i32) * 100 + (d5 as i32) * 10
        + (d6 as i32);
    if sign == 0x2D {
        Some(Decimal { raw: -mag })
    } else {
        Some(Decimal { raw: mag })
    }
}

/// The board is moving.
pub const SENSOR_MOVING: u8 = 0b0000_0001;

/// The yaw reading has stabilised.
pub const SENSOR_YAW_STABLE: u8 = 0b0000_0010;

/// A magnetic disturbance is being observed.
pub const SENSOR_MAG_DISTURBANCE: u8 = 0b0000_0100;

/// The altitude reading is valid.
pub const SENSOR_ALTITUDE_VALID: u8 = 0b0000_1000;

/// A sea-level pressure reference has been set.
pub const SENSOR_SEALEVEL_PRESS_SET: u8 = 0b0001_0000;

/// The fused heading reading is valid.
pub const SENSOR_FUSED_HEADING_VALID: u8 = 0b0010_0000;

/// The bits of the sensor-status register that carry meaning.
pub const SENSOR_STATUS_MASK: u8 = SENSOR_MOVING | SENSOR_YAW_STABLE | SENSOR_MAG_DISTURBANCE
    | SENSOR_ALTITUDE_VALID | SENSOR_SEALEVEL_PRESS_SET | SENSOR_FUSED_HEADING_VALID;

/// Live sensor state flags. Undefined bits are dropped on decode, never
/// rejected.
#[derive(Clone, Copy, Debug, PartialEq, Eq, Structural)]
pub struct SensorStatus {
    pub bits: u8,
}

impl SensorStatus {
    /// Keep only the defined bits of a raw register byte.
    pub fn from_bits_truncate(bits: u8) -> (r: Self)
        ensures
            r.bits == bits & SENSOR_STATUS_MASK,
    {
        SensorStatus { bits: bits & SENSOR_STATUS_MASK }
    }

    /// Whether every bit of `flag` is set.
    pub fn contains(&self, flag: u8) -> (r: bool)
        ensures
            r == (self.bits & flag == flag),
    {
        self.bits & flag == flag
    }
}

impl FromBuffer for SensorStatus {
    open spec fn fixed_len() -> nat {
        1
    }

    open spec fn read_spec(b: Seq<u8>) -> Self {
        SensorStatus { bits: b[0] & SENSOR_STATUS_MASK }
    }

    fn read(buf: &[u8]) -> (r: Self) {
        proof {
            assert(Self::fixed_len() == 1);
        }
        let r = Self::from_bits_truncate(buf[0]);
        proof {
            assert(r.bits == buf@[0] & SENSOR_STATUS_MASK);
            assert(Self::read_spec(buf@) == (SensorStatus { bits: buf@[0] & SENSOR_STATUS_MASK }));
            assert(r == Self::read_spec(buf@));
        }
        r
    }
}

/// An inertial calibration is in progress.
pub const CAL_IMU_INPROGRESS: u8 = 0b0000_0000;

/// The inertial calibration is accumulating samples.
pub const CAL_IMU_ACCUMULATE: u8 = 0b0000_0001;

/// The inertial calibration is complete.
pub const CAL_IMU_COMPLETE: u8 = 0b0000_0010;

/// The magnetometer calibration is complete.
pub const CAL_MAG_COMPLETE: u8 = 0b0000_0100;

/// The barometer calibration is complete.
pub const CAL_BARO_COMPLETE: u8 = 0b0000_1000;

/// The bits of the calibration-status register that carry meaning.
pub const CAL_STATUS_MASK: u8 = CAL_IMU_ACCUMULATE | CAL_IMU_COMPLETE | CAL_MAG_COMPLETE
    | CAL_BARO_COMPLETE;

/// Calibration progress flags. Undefined bits are dropped on decode.
#[derive(Clone, Copy, Debug, PartialEq, Eq, Structural)]
pub struct CalibrationStatus {
    pub bits: u8,
}

impl CalibrationStatus {
    /// Keep only the defined bits of a raw register byte.
    pub fn from_bits_truncate(bits: u8) -> (r: Self)
        ensures
            r.bits == bits & CAL_STATUS_MASK,
    {
        CalibrationStatus { bits: bits & CAL_STATUS_MASK }
    }

    /// Whether every bit of `flag` is set.
    pub fn contains(&self, flag: u8) -> (r: bool)
        ensures
            r == (self.bits & flag == flag),
    {
        self.bits & flag == flag
    }
}

impl FromBuffer for CalibrationStatus {
    open spec fn fixed_len() -> nat {
        1
    }

    open spec fn read_spec(b: Seq<u8>) -> Self {
        CalibrationStatus { bits: b[0] & CAL_STATUS_MASK }
    }

    fn read(buf: &[u8]) -> (r: Self) {
        proof {
            assert(Self::fixed_len() == 1);
        }
        let r = Self::from_bits_truncate(buf[0]);
        proof {
            assert(r.bits == buf@[0] & CAL_STATUS_MASK);
            assert(Self::read_spec(buf@) == (CalibrationStatus { bits: buf@[0] & CAL_STATUS_MASK }));
            assert(r == Self::read_spec(buf@));
        }
        r
    }
}

/// The gyroscope passed its self-test.
pub const SELFTEST_GYRO_PASSED: u8 = 0b0000_0001;

/// The accelerometer passed its self-test.
pub const SELFTEST_ACCEL_PASSED: u8 = 0b0000_0010;

/// The magnetometer passed its self-test.
pub const SELFTEST_MAG_PASSED: u8 = 0b0000_0100;

/// The barometer passed its self-test.
pub const SELFTEST_BARO_PASSED: u8 = 0b0000_1000;

/// The self-test has finished.
pub const SELFTEST_COMPLETE: u8 = 0b1000_0000;

/// The bits of the self-test register that carry meaning.
pub const SELFTEST_STATUS_MASK: u8 = SELFTEST_GYRO_PASSED | SELFTEST_ACCEL_PASSED
    | SELFTEST_MAG_PASSED | SELFTEST_BARO_PASSED | SELFTEST_COMPLETE;

/// Self-test result flags. Undefined bits are dropped on decode.
#[derive(Clone, Copy, Debug, PartialEq, Eq, Structural)]
pub struct SelfTestStatus {
    pub bits: u8,
}

impl SelfTestStatus {
    /// Keep only the defined bits of a raw register byte.
    pub fn from_bits_truncate(bits: u8) -> (r: Self)
        ensures
            r.bits == bits & SELFTEST_STATUS_MASK,
    {
        SelfTestStatus { bits: bits & SELFTEST_STATUS_MASK }
    }

    /// Whether every bit of `flag` is set.
    pub fn contains(&self, flag: u8) -> (r: bool)
        ensures
            r == (self.bits & flag == flag),
    {
        self.bits & flag == flag
    }
}

impl FromBuffer for SelfTestStatus {
    open spec fn fixed_len() -> nat {
        1
    }

    open spec fn read_spec(b: Seq<u8>) -> Self {
        SelfTestStatus { bits: b[0] & SELFTEST_STATUS_MASK }
    }

    fn read(buf: &[u8]) -> (r: Self) {
        proof {
            assert(Self::fixed_len() == 1);
        }
        let r = Self::from_bits_truncate(buf[0]);
        proof {
            assert(r.bits == buf@[0] & SELFTEST_STATUS_MASK);
            assert(Self::read_spec(buf@) == (SelfTestStatus { bits: buf@[0] & SELFTEST_STATUS_MASK }));
            assert(r == Self::read_spec(buf@));
        }
        r
    }
}

/// The board supports configurable mounting orientation.
pub const CAPABILITY_OMNIMOUNT: u8 = 0b0000_0100;

/// The bits that hold the configured mounting orientation.
pub const CAPABILITY_OMNIMOUNT_CONFIG_MASK: u8 = 0b0011_1000;

/// The board integrates velocity and displacement.
pub const CAPABILITY_VEL_AND_DISP: u8 = 0b0100_0000;

/// An alternative flag for velocity and displacement, reported by some board
/// models.
pub const CAPABILITY_VEL_AND_DISP2: u8 = 0b1000_0000;

/// The bits of the capability register that carry meaning.
pub const CAPABILITY_MASK: u8 = CAPABILITY_OMNIMOUNT | CAPABILITY_OMNIMOUNT_CONFIG_MASK
    | CAPABILITY_VEL_AND_DISP | CAPABILITY_VEL_AND_DISP2;

/// Capability flags of a board. Undefined bits are dropped on decode.
#[derive(Clone, Copy, Debug, PartialEq, Eq, Structural)]
pub struct Capability {
    pub bits: u8,
}

impl Capability {
    /// Keep only the defined bits of a raw register byte.
    pub fn from_bits_truncate(bits: u8) -> (r: Self)
        ensures
            r.bits == bits & CAPABILITY_MASK,
    {
        Capability { bits: bits & CAPABILITY_MASK }
    }

    /// Whether every bit of `flag` is set.
    pub fn contains(&self, flag: u8) -> (r: bool)
        ensures
            r == (self.bits & flag == flag),
    {
        self.bits & flag == flag
    }
}

impl FromBuffer for Capability {
    open spec fn fixed_len() -> nat {
        1
    }

    open spec fn read_spec(b: Seq<u8>) -> Self {
        Capability { bits: b[0] & CAPABILITY_MASK }
    }

    fn read(buf: &[u8]) -> (r: Self) {
        proof {
            assert(Self::fixed_len() == 1);
        }
        let r = Self::from_bits_truncate(buf[0]);
        proof {
            assert(r.bits == buf@[0] & CAPABILITY_MASK);
            assert(Self::read_spec(buf@) == (Capability { bits: buf@[0] & CAPABILITY_MASK }));
            assert(r == Self::read_spec(buf@));
        }
        r
    }
}

/// Reset the integrated x velocity.
pub const RESET_VEL_X: u8 = 0b0000_0001;

/// Reset the integrated y velocity.
pub const RESET_VEL_Y: u8 = 0b0000_0010;

/// Reset the integrated z velocity.
pub const RESET_VEL_Z: u8 = 0b0000_0100;

/// Reset the integrated x displacement.
pub const RESET_DISP_X: u8 = 0b0000_1000;

/// Reset the integrated y displacement.
pub const RESET_DISP_Y: u8 = 0b0001_0000;

/// Reset the integrated z displacement.
pub const RESET_DISP_Z: u8 = 0b0010_0000;

/// Reset the yaw rotation.
pub const RESET_YAW: u8 = 0b1000_0000;

/// Reset every velocity component.
pub const RESET_VEL: u8 = RESET_VEL_X | RESET_VEL_Y | RESET_VEL_Z;

/// Reset every displacement component.
pub const RESET_DISP: u8 = RESET_DISP_X | RESET_DISP_Y | RESET_DISP_Z;

/// Reset velocity and displacement together.
pub const RESET_POSE: u8 = RESET_VEL | RESET_DISP;

/// Reset everything the integrator accumulates.
pub const RESET_ALL: u8 = RESET_POSE | RESET_YAW;

/// The bits of the integration-control register that carry meaning.
pub const CONTROL_RESET_MASK: u8 = RESET_POSE | RESET_YAW;

/// Flags selecting which integrator accumulators to reset. Undefined bits are
/// dropped on decode.
#[derive(Clone, Copy, Debug, PartialEq, Eq, Structural)]
pub struct ControlReset {
    pub bits: u8,
}

impl ControlReset {
    /// Keep only the defined bits of a raw register byte.
    pub fn from_bits_truncate(bits: u8) -> (r: Self)
        ensures
            r.bits == bits & CONTROL_RESET_MASK,
    {
        ControlReset { bits: bits & CONTROL_RESET_MASK }
    }

    /// Whether every bit of `flag` is set.
    pub fn contains(&self, flag: u8) -> (r: bool)
        ensures
            r == (self.bits & flag == flag),
    {
        self.bits & flag == flag
    }
}

impl FromBuffer for ControlReset {
    open spec fn fixed_len() -> nat {
        1
    }

    open spec fn read_spec(b: Seq<u8>) -> Self {
        ControlReset { bits: b[0] & CONTROL_RESET_MASK }
    }

    fn read(buf: &[u8]) -> (r: Self) {
        proof {
            assert(Self::fixed_len() == 1);
        }
        let r = Self::from_bits_truncate(buf[0]);
        proof {
            assert(r.bits == buf@[0] & CONTROL_RESET_MASK);
            assert(Self::read_spec(buf@) == (ControlReset { bits: buf@[0] & CONTROL_RESET_MASK }));
            assert(r == Self::read_spec(buf@));
        }
        r
    }
}

/// The operating state a board reports.
#[derive(Clone, Copy, Debug, PartialEq, Eq, Structural)]
pub enum OperationStatus {
    /// The board is starting up.
    Initializing,
    /// The power-on self-test is running.
    RunningSelfTest,
    /// The board is in an error state.
    Error,
    /// A calibration is running.
    Calibrating,
    /// Normal operation.
    Normal,
}

/// The operating state a raw status byte stands for, with every out-of-range
/// byte clamped to the nearest (highest) state. The clamp is a deliberate
/// permissive policy, not an error path.
pub open spec fn operation_status_clamped(x: u8) -> OperationStatus {
    if x == 0 {
        OperationStatus::Initializing
    } else if x == 1 {
        OperationStatus::RunningSelfTest
    } else if x == 2 {
        OperationStatus::Error
    } else if x == 3 {
        OperationStatus::Calibrating
    } else {
        OperationStatus::Normal
    }
}

impl OperationStatus {
    /// Decode a status byte, clamping out-of-range values to [`OperationStatus::Normal`].
    pub fn read(buf: &[u8]) -> (r: Self)
        requires
            buf@.len() >= 1,
        ensures
            r == operation_status_clamped(buf@[0]),
    {
        match buf[0] {
            0 => OperationStatus::Initializing,
            1 => OperationStatus::RunningSelfTest,
            2 => OperationStatus::Error,
            3 => OperationStatus::Calibrating,
            _ => OperationStatus::Normal,
        }
    }
}

impl FromBufferFallible for OperationStatus {
    open spec fn buffer_len() -> nat {
        1
    }

    open spec fn decode_spec(b: Seq<u8>) -> Option<Self> {
        Some(operation_status_clamped(b[0]))
    }

    fn try_read(buf: &[u8]) -> (r: Option<Self>) {
        proof {
            assert(Self::buffer_len() == 1);
        }
        let r = Self::read(buf);
        proof {
            assert(r == operation_status_clamped(buf@[0]));
            assert(Self::decode_spec(buf@) == Some::<OperationStatus>(
                operation_status_clamped(buf@[0]),
            ));
        }
        Some(r)
    }
}

/// The mounting orientation a board is configured for.
#[derive(Clone, Copy, Debug, PartialEq, Eq, Structural)]
pub enum OmniMountConfig {
    /// The factory default orientation.
    Default,
    /// The x axis points up.
    XUp,
    /// The x axis points down.
    XDown,
    /// The y axis points up.
    YUp,
    /// The y axis points down.
    YDown,
    /// The z axis points up.
    ZUp,
    /// The z axis points down.
    ZDown,
}

/// The mounting orientation a raw byte stands for, with every out-of-range
/// byte clamped to the nearest (highest) orientation.
pub open spec fn omnimount_clamped(x: u8) -> OmniMountConfig {
    if x == 0 {
        OmniMountConfig::Default
    } else if x == 1 {
        OmniMountConfig::XUp
    } else if x == 2 {
        OmniMountConfig::XDown
    } else if x == 3 {
        OmniMountConfig::YUp
    } else if x == 4 {
        OmniMountConfig::YDown
    } else if x == 5 {
        OmniMountConfig::ZUp
    } else {
        OmniMountConfig::ZDown
    }
}

impl OmniMountConfig {
    /// Decode a configuration byte, clamping out-of-range values to
    /// [`OmniMountConfig::ZDown`].
    pub fn read(buf: &[u8]) -> (r: Self)
        requires
            buf@.len() >= 1,
        ensures
            r == omnimount_clamped(buf@[0]),
    {
        match buf[0] {
            0 => OmniMountConfig::Default,
            1 => OmniMountConfig::XUp,
            2 => OmniMountConfig::XDown,
            3 => OmniMountConfig::YUp,
            4 => OmniMountConfig::YDown,
            5 => OmniMountConfig::ZUp,
            _ => OmniMountConfig::ZDown,
        }
    }
}

impl FromBufferFallible for OmniMountConfig {
    open spec fn buffer_len() -> nat {
        1
    }

    open spec fn decode_spec(b: Seq<u8>) -> Option<Self> {
        Some(omnimount_clamped(b[0]))
    }

    fn try_read(buf: &[u8]) -> (r: Option<Self>) {
        proof {
            assert(Self::buffer_len() == 1);
        }
        let r = Self::read(buf);
        proof {
            assert(r == omnimount_clamped(buf@[0]));
            assert(Self::decode_spec(buf@) == Some::<OmniMountConfig>(omnimount_clamped(buf@[0])));
        }
        Some(r)
    }
}

/// The stream selector used in the stream configuration command: the letter
/// `y` asks for directional updates, `g` for raw data and `p` for position.
#[derive(Clone, Copy, Debug, PartialEq, Eq, Structural)]
pub enum StreamType {
    /// Yaw/pitch/roll/heading updates.
    Directional,
    /// Raw gyroscope, accelerometer and magnetometer updates.
    RawData,
    /// Integrated position updates.
    Position,
}

impl StreamType {
    /// The selector letter this stream type goes by on the wire.
    pub open spec fn letter(self) -> u8 {
        match self {
            StreamType::Directional => 0x79,
            StreamType::RawData => 0x67,
            StreamType::Position => 0x70,
        }
    }

    /// Serialize the selector letter.
    pub fn to_letter(self) -> (r: u8)
        ensures
            r == self.letter(),
    {
        match self {
            StreamType::Directional => 0x79,
            StreamType::RawData => 0x67,
            StreamType::Position => 0x70,
        }
    }
}

impl FromBufferFallible for StreamType {
    open spec fn buffer_len() -> nat {
        1
    }

    open spec fn decode_spec(b: Seq<u8>) -> Option<Self> {
        if b[0] == 0x79 {
            Some(StreamType::Directional)
        } else if b[0] == 0x67 {
            Some(StreamType::RawData)
        } else if b[0] == 0x70 {
            Some(StreamType::Position)
        } else {
            None
        }
    }

    fn try_read(buf: &[u8]) -> (r: Option<Self>) {
        proof {
            assert(Self::buffer_len() == 1);
        }
        match buf[0] {
            0x79 => Some(StreamType::Directional),
            0x67 => Some(StreamType::RawData),
            0x70 => Some(StreamType::Position),
            _ => None,
        }
    }
}

/// A helper struct representing a vector in 3D space.
#[derive(Clone, Copy, Debug, PartialEq, Eq, Structural)]
pub struct Vector<T> {
    pub x: T,
    pub y: T,
    pub z: T,
}

impl<T> Vector<T> {
    /// Split `buf` into three equal sub-spans and decode one component from
    /// each with the given scalar decoder, in x, y, z order.
    pub fn read<F: Fn(&[u8]) -> T>(read: F, buf: &[u8]) -> (r: Vector<T>)
        requires
            buf@.len() % 3 == 0,
            forall|s: &[u8]|
                s@.len() == buf@.len() / 3 ==> #[trigger] call_requires(read, (s,)),
        ensures
            exists|s: &[u8]|
                s@ == buf@.subrange(0, buf@.len() as int / 3) && #[trigger] call_ensures(
                    read,
                    (s,),
                    r.x,
                ),
            exists|s: &[u8]|
                s@ == buf@.subrange(buf@.len() as int / 3, 2 * (buf@.len() as int / 3)) && #[trigger] call_ensures(
                    read,
                    (s,),
                    r.y,
                ),
            exists|s: &[u8]|
                s@ == buf@.subrange(2 * (buf@.len() as int / 3), buf@.len() as int) && #[trigger] call_ensures(
                    read,
                    (s,),
                    r.z,
                ),
    {
        let segment = buf.len() / 3;
        let sx = slice_subrange(buf, 0, segment);
        let sy = slice_subrange(buf, segment, 2 * segment);
        let sz = slice_subrange(buf, 2 * segment, buf.len());
        proof {
            assert(buf@.len() == 3 * (buf@.len() / 3)) by (nonlinear_arith)
                requires
                    buf@.len() % 3 == 0,
            ;
        }
        let x = read(sx);
        let y = read(sy);
        let z = read(sz);
        let r = Vector { x, y, z };
        proof {
            assert(sx@ == buf@.subrange(0, buf@.len() as int / 3));
            assert(sy@ == buf@.subrange(buf@.len() as int / 3, 2 * (buf@.len() as int / 3)));
            assert(sz@ == buf@.subrange(2 * (buf@.len() as int / 3), buf@.len() as int));
            assert(call_ensures(read, (sx,), r.x));
            assert(call_ensures(read, (sy,), r.y));
            assert(call_ensures(read, (sz,), r.z));
        }
        r
    }
}

} // verus!

