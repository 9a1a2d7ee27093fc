//! The records carried by the streaming protocol's packets.

use vstd::prelude::*;
use vstd::slice::slice_subrange;

use crate::protocol::FromBuffer;
use crate::protocol::FromBufferFallible;
use crate::register::storage::Quaternion;
use crate::serde::decimal_text;
use crate::serde::hex_word;
use crate::serde::le_i16;
use crate::serde::le_u32;
use crate::serde::operation_status_clamped;
use crate::serde::read_decimal;
use crate::serde::read_i16;
use crate::serde::read_int;
use crate::serde::read_q1616;
use crate::serde::read_thousandth;
use crate::serde::read_hundredth;
use crate::serde::read_uhundredth;
use crate::serde::CalibrationStatus;
use crate::serde::Decimal;
use crate::serde::Hundredths;
use crate::serde::OperationStatus;
use crate::serde::Q1616;
use crate::serde::SelfTestStatus;
use crate::serde::SensorStatus;
use crate::serde::StreamType;
use crate::serde::Thousandths;
use crate::serde::UnsignedHundredths;
use crate::serde::Vector;
use crate::serde::CAL_STATUS_MASK;
use crate::serde::SELFTEST_STATUS_MASK;
use crate::serde::SENSOR_STATUS_MASK;

verus! {

/// Decode a vector of three raw 16-bit scalars from three equal four-byte
/// sub-spans; each scalar sits in the leading two bytes of its sub-span.
fn vec3_i16(buf: &[u8]) -> (r: Vector<i16>)
    requires
        buf@.len() == 12,
    ensures
        r.x == le_i16(buf@.subrange(0, 4)),
        r.y == le_i16(buf@.subrange(4, 8)),
        r.z == le_i16(buf@.subrange(8, 12)),
{
    let r = Vector::read(read_i16, buf);
    proof {
        let sx = choose|s: &[u8]|
            s@ == buf@.subrange(0, buf@.len() as int / 3) && #[trigger] call_ensures(
                read_i16,
                (s,),
                r.x,
            );
        assert(r.x == le_i16(sx@));
        let sy = choose|s: &[u8]|
            s@ == buf@.subrange(buf@.len() as int / 3, 2 * (buf@.len() as int / 3))
                && #[trigger] call_ensures(read_i16, (s,), r.y);
        assert(r.y == le_i16(sy@));
        let sz = choose|s: &[u8]|
            s@ == buf@.subrange(2 * (buf@.len() as int / 3), buf@.len() as int)
                && #[trigger] call_ensures(read_i16, (s,), r.z);
        assert(r.z == le_i16(sz@));
    }
    r
}

/// Decode a vector of three signed-thousandths scalars from three two-byte
/// sub-spans.
fn vec3_thousandths(buf: &[u8]) -> (r: Vector<Thousandths>)
    requires
        buf@.len() == 6,
    ensures
        r.x.raw == le_i16(buf@.subrange(0, 2)),
        r.y.raw == le_i16(buf@.subrange(2, 4)),
        r.z.raw == le_i16(buf@.subrange(4, 6)),
{
    let r = Vector::read(read_thousandth, buf);
    proof {
        let sx = choose|s: &[u8]|
            s@ == buf@.subrange(0, buf@.len() as int / 3) && #[trigger] call_ensures(
                read_thousandth,
                (s,),
                r.x,
            );
        assert(r.x.raw == le_i16(sx@));
        let sy = choose|s: &[u8]|
            s@ == buf@.subrange(buf@.len() as int / 3, 2 * (buf@.len() as int / 3))
                && #[trigger] call_ensures(read_thousandth, (s,), r.y);
        assert(r.y.raw == le_i16(sy@));
        let sz = choose|s: &[u8]|
            s@ == buf@.subrange(2 * (buf@.len() as int / 3), buf@.len() as int)
                && #[trigger] call_ensures(read_thousandth, (s,), r.z);
        assert(r.z.raw == le_i16(sz@));
    }
    r
}

/// Decode a vector of three 16.16 fixed-point scalars from three four-byte
/// sub-spans.
fn vec3_q1616(buf: &[u8]) -> (r: Vector<Q1616>)
    requires
        buf@.len() == 12,
    ensures
        r.x.raw == le_u32(buf@.subrange(0, 4)),
        r.y.raw == le_u32(buf@.subrange(4, 8)),
        r.z.raw == le_u32(buf@.subrange(8, 12)),
{
    let r = Vector::read(read_q1616, buf);
    proof {
        let sx = choose|s: &[u8]|
            s@ == buf@.subrange(0, buf@.len() as int / 3) && #[trigger] call_ensures(
                read_q1616,
                (s,),
                r.x,
            );
        assert(r.x.raw == le_u32(sx@));
        let sy = choose|s: &[u8]|
            s@ == buf@.subrange(buf@.len() as int / 3, 2 * (buf@.len() as int / 3))
                && #[trigger] call_ensures(read_q1616, (s,), r.y);
        assert(r.y.raw == le_u32(sy@));
        let sz = choose|s: &[u8]|
            s@ == buf@.subrange(2 * (buf@.len() as int / 3), buf@.len() as int)
                && #[trigger] call_ensures(read_q1616, (s,), r.z);
        assert(r.z.raw == le_u32(sz@));
    }
    r
}

/// A directional update: yaw, pitch, roll and compass heading, each carried
/// as seven characters of decimal text. The fields are named rather than
/// held in a vector to keep their meaning clear.
#[derive(Clone, Copy, Debug, PartialEq, Eq, Structural)]
pub struct DirectionalUpdate {
    pub yaw: Decimal,
    pub pitch: Decimal,
    pub roll: Decimal,
    pub compass_heading: Decimal,
}

impl FromBufferFallible for DirectionalUpdate {
    open spec fn buffer_len() -> nat {
        28
    }

    open spec fn decode_spec(b: Seq<u8>) -> Option<Self> {
        match (
            decimal_text(b.subrange(0, 7)),
            decimal_text(b.subrange(7, 14)),
            decimal_text(b.subrange(14, 21)),
            decimal_text(b.subrange(21, 28)),
        ) {
            (Some(yaw), Some(pitch), Some(roll), Some(heading)) => Some(
                DirectionalUpdate {
                    yaw: Decimal { raw: yaw },
                    pitch: Decimal { raw: pitch },
                    roll: Decimal { raw: roll },
                    compass_heading: Decimal { raw: heading },
                },
            ),
            _ => None,
        }
    }

    fn try_read(buf: &[u8]) -> (r: Option<Self>) {
        let yaw = match read_decimal(slice_subrange(buf, 0, 7)) {
            Some(d) => d,
            None => { return None; },
        };
        let pitch = match read_decimal(slice_subrange(buf, 7, 14)) {
            Some(d) => d,
            None => { return None; },
        };
        let roll = match read_decimal(slice_subrange(buf, 14, 21)) {
            Some(d) => d,
            None => { return None; },
        };
        let compass_heading = match read_decimal(slice_subrange(buf, 21, 28)) {
            Some(d) => d,
            None => { return None; },
        };
        Some(DirectionalUpdate { yaw, pitch, roll, compass_heading })
    }
}

/// A raw data update: calibrated rotation in device units scaled by the
/// gyroscope range, acceleration in device units scaled by the accelerometer
/// range, magnetometer readings of 0.15 microtesla per unit, and the die
/// temperature in degrees Celsius as decimal text.
#[derive(Clone, Copy, Debug, PartialEq, Eq, Structural)]
pub struct RawDataUpdate {
    pub gyro: Vector<i16>,
    pub acceleration: Vector<i16>,
    pub magnetometer: Vector<i16>,
    pub temperature: Decimal,
}

impl FromBufferFallible for RawDataUpdate {
    open spec fn buffer_len() -> nat {
        43
    }

    open spec fn decode_spec(b: Seq<u8>) -> Option<Self> {
        match decimal_text(b.subrange(36, 43)) {
            Some(temperature) => Some(
                RawDataUpdate {
                    gyro: Vector {
                        x: le_i16(b.subrange(0, 4)),
                        y: le_i16(b.subrange(4, 8)),
                        z: le_i16(b.subrange(8, 12)),
                    },
                    acceleration: Vector {
                        x: le_i16(b.subrange(12, 16)),
                        y: le_i16(b.subrange(16, 20)),
                        z: le_i16(b.subrange(20, 24)),
                    },
                    magnetometer: Vector {
                        x: le_i16(b.subrange(24, 28)),
                        y: le_i16(b.subrange(28, 32)),
                        z: le_i16(b.subrange(32, 36)),
                    },
                    temperature: Decimal { raw: temperature },
                },
            ),
            None => None,
        }
    }

    fn try_read(buf: &[u8]) -> (r: Option<Self>) {
        let sub_gyro = slice_subrange(buf, 0, 12);
        let gyro = vec3_i16(sub_gyro);
        let sub_accel = slice_subrange(buf, 12, 24);
        let acceleration = vec3_i16(sub_accel);
        let sub_mag = slice_subrange(buf, 24, 36);
        let magnetometer = vec3_i16(sub_mag);
        let temperature = match read_decimal(slice_subrange(buf, 36, 43)) {
            Some(d) => d,
            None => { return None; },
        };
        proof {
            assert(sub_gyro@.subrange(0, 4) =~= buf@.subrange(0, 4));
            assert(sub_gyro@.subrange(4, 8) =~= buf@.subrange(4, 8));
            assert(sub_gyro@.subrange(8, 12) =~= buf@.subrange(8, 12));
            assert(sub_accel@.subrange(0, 4) =~= buf@.subrange(12, 16));
            assert(sub_accel@.subrange(4, 8) =~= buf@.subrange(16, 20));
            assert(sub_accel@.subrange(8, 12) =~= buf@.subrange(20, 24));
            assert(sub_mag@.subrange(0, 4) =~= buf@.subrange(24, 28));
            assert(sub_mag@.subrange(4, 8) =~= buf@.subrange(28, 32));
            assert(sub_mag@.subrange(8, 12) =~= buf@.subrange(32, 36));
        }
        Some(RawDataUpdate { gyro, acceleration, magnetometer, temperature })
    }
}

/// The status block carried in streamed position updates. Every sub-field
/// decode is total: the operating status clamps and the flag sets truncate.
#[derive(Clone, Copy, Debug, PartialEq, Eq, Structural)]
pub struct Status {
    pub operation: OperationStatus,
    pub sensor: SensorStatus,
    pub calibration: CalibrationStatus,
    pub self_test: SelfTestStatus,
}

impl FromBufferFallible for Status {
    open spec fn buffer_len() -> nat {
        4
    }

    open spec fn decode_spec(b: Seq<u8>) -> Option<Self> {
        Some(
            Status {
                operation: operation_status_clamped(b[0]),
                sensor: SensorStatus { bits: b[1] & SENSOR_STATUS_MASK },
                calibration: CalibrationStatus { bits: b[2] & CAL_STATUS_MASK },
                self_test: SelfTestStatus { bits: b[3] & SELFTEST_STATUS_MASK },
            },
        )
    }

    fn try_read(buf: &[u8]) -> (r: Option<Self>) {
        Some(
            Status {
                operation: OperationStatus::read(slice_subrange(buf, 0, 1)),
                sensor: SensorStatus::read(slice_subrange(buf, 1, 2)),
                calibration: CalibrationStatus::read(slice_subrange(buf, 2, 3)),
                self_test: SelfTestStatus::read(slice_subrange(buf, 3, 4)),
            },
        )
    }
}

/// A streamed position update: attitude and heading in hundredths, altitude
/// in 16.16 fixed-point, world-frame linear acceleration in thousandths,
/// integrated velocity and displacement in 16.16 fixed-point, the
/// orientation quaternion, the die temperature and the status block.
#[derive(Clone, Copy, Debug, PartialEq, Eq, Structural)]
pub struct PositionUpdate {
    pub yaw: Hundredths,
    pub pitch: Hundredths,
    pub roll: Hundredths,
    pub compass_heading: UnsignedHundredths,
    pub altitude: Q1616,
    pub fused_heading: UnsignedHundredths,
    pub linear_accel: Vector<Thousandths>,
    pub linear_velocity: Vector<Q1616>,
    pub displacement: Vector<Q1616>,
    pub quaternion: Quaternion,
    pub mpu_temp: Hundredths,
    pub status: Status,
}

impl FromBufferFallible for PositionUpdate {
    open spec fn buffer_len() -> nat {
        58
    }

    open spec fn decode_spec(b: Seq<u8>) -> Option<Self> {
        match Status::decode_spec(b.subrange(54, 58)) {
            Some(status) => Some(
                PositionUpdate {
                    yaw: Hundredths { raw: le_i16(b.subrange(0, 2)) },
                    pitch: Hundredths { raw: le_i16(b.subrange(2, 4)) },
                    roll: Hundredths { raw: le_i16(b.subrange(4, 6)) },
                    compass_heading: UnsignedHundredths {
                        raw: crate::serde::le_u16(b.subrange(6, 8)),
                    },
                    altitude: Q1616 { raw: le_u32(b.subrange(8, 12)) },
                    fused_heading: UnsignedHundredths {
                        raw: crate::serde::le_u16(b.subrange(12, 14)),
                    },
                    linear_accel: Vector {
                        x: Thousandths { raw: le_i16(b.subrange(14, 16)) },
                        y: Thousandths { raw: le_i16(b.subrange(16, 18)) },
                        z: Thousandths { raw: le_i16(b.subrange(18, 20)) },
                    },
                    linear_velocity: Vector {
                        x: Q1616 { raw: le_u32(b.subrange(20, 24)) },
                        y: Q1616 { raw: le_u32(b.subrange(24, 28)) },
                        z: Q1616 { raw: le_u32(b.subrange(28, 32)) },
                    },
                    displacement: Vector {
                        x: Q1616 { raw: le_u32(b.subrange(32, 36)) },
                        y: Q1616 { raw: le_u32(b.subrange(36, 40)) },
                        z: Q1616 { raw: le_u32(b.subrange(40, 44)) },
                    },
                    quaternion: Quaternion::read_spec(b.subrange(44, 52)),
                    mpu_temp: Hundredths { raw: le_i16(b.subrange(52, 54)) },
                    status,
                },
            ),
            None => None,
        }
    }

    fn try_read(buf: &[u8]) -> (r: Option<Self>) {
        let yaw = read_hundredth(slice_subrange(buf, 0, 2));
        let pitch = read_hundredth(slice_subrange(buf, 2, 4));
        let roll = read_hundredth(slice_subrange(buf, 4, 6));
        let compass_heading = read_uhundredth(slice_subrange(buf, 6, 8));
        let altitude = read_q1616(slice_subrange(buf, 8, 12));
        let fused_heading = read_uhundredth(slice_subrange(buf, 12, 14));
        let sub_accel = slice_subrange(buf, 14, 20);
        let linear_accel = vec3_thousandths(sub_accel);
        let sub_vel = slice_subrange(buf, 20, 32);
        let linear_velocity = vec3_q1616(sub_vel);
        let sub_disp = slice_subrange(buf, 32, 44);
        let displacement = vec3_q1616(sub_disp);
        let quaternion = Quaternion::read(slice_subrange(buf, 44, 52));
        let mpu_temp = read_hundredth(slice_subrange(buf, 52, 54));
        let status = match Status::try_read(slice_subrange(buf, 54, 58)) {
            Some(s) => s,
            None => { return None; },
        };
        proof {
            assert(sub_accel@.subrange(0, 2) =~= buf@.subrange(14, 16));
            assert(sub_accel@.subrange(2, 4) =~= buf@.subrange(16, 18));
            assert(sub_accel@.subrange(4, 6) =~= buf@.subrange(18, 20));
            assert(sub_vel@.subrange(0, 4) =~= buf@.subrange(20, 24));
            assert(sub_vel@.subrange(4, 8) =~= buf@.subrange(24, 28));
            assert(sub_vel@.subrange(8, 12) =~= buf@.subrange(28, 32));
            assert(sub_disp@.subrange(0, 4) =~= buf@.subrange(32, 36));
            assert(sub_disp@.subrange(4, 8) =~= buf@.subrange(36, 40));
            assert(sub_disp@.subrange(8, 12) =~= buf@.subrange(40, 44));
        }
        Some(
            PositionUpdate {
                yaw,
                pitch,
                roll,
                compass_heading,
                altitude,
                fused_heading,
                linear_accel,
                linear_velocity,
                displacement,
                quaternion,
                mpu_temp,
                status,
            },
        )
    }
}

/// The response to a stream configuration command. FSR stands for full-scale
/// range. The numeric fields arrive as hexadecimal text and the yaw offset
/// as decimal text; a span of reserved bytes is carried through for
/// protocol growth. The flags byte overlaps the calibration flags and should
/// only be consulted for the inertial unit's status.
#[derive(Clone, Copy, Debug, PartialEq, Eq)]
pub struct StreamConfigurationResponse {
    pub stream_type: StreamType,
    pub gyro_fsr: u16,
    pub accel_fsr: u16,
    pub update_rate: u16,
    pub calibrated_yaw_offset: Decimal,
    pub reserved: [u8; 16],
    pub flags: CalibrationStatus,
}

impl StreamConfigurationResponse {
    /// Decode a response span. The record holds an array field, so the
    /// contract is stated field by field rather than through a single
    /// decode function.
    pub fn try_read(buf: &[u8]) -> (r: Option<Self>)
        requires
            buf@.len() >= 37,
        ensures
            match r {
                Some(v) => {
                    &&& StreamType::decode_spec(buf@.subrange(0, 1)) == Some(v.stream_type)
                    &&& hex_word(buf@.subrange(1, 5)) == Some(v.gyro_fsr)
                    &&& hex_word(buf@.subrange(5, 9)) == Some(v.accel_fsr)
                    &&& hex_word(buf@.subrange(9, 13)) == Some(v.update_rate)
                    &&& decimal_text(buf@.subrange(13, 20)) == Some(v.calibrated_yaw_offset.raw)
                    &&& v.reserved@ == buf@.subrange(20, 36)
                    &&& v.flags.bits == buf@[36] & CAL_STATUS_MASK
                },
                None => {
                    ||| StreamType::decode_spec(buf@.subrange(0, 1)) is None
                    ||| hex_word(buf@.subrange(1, 5)) is None
                    ||| hex_word(buf@.subrange(5, 9)) is None
                    ||| hex_word(buf@.subrange(9, 13)) is None
                    ||| decimal_text(buf@.subrange(13, 20)) is None
                },
            },
    {
        let stream_type = match StreamType::try_read(slice_subrange(buf, 0, 1)) {
            Some(s) => s,
            None => { return None; },
        };
        let gyro_fsr = match read_int(slice_subrange(buf, 1, 5)) {
            Some(v) => v,
            None => { return None; },
        };
        let accel_fsr = match read_int(slice_subrange(buf, 5, 9)) {
            Some(v) => v,
            None => { return None; },
        };
        let update_rate = match read_int(slice_subrange(buf, 9, 13)) {
            Some(v) => v,
            None => { return None; },
        };
        let calibrated_yaw_offset = match read_decimal(slice_subrange(buf, 13, 20)) {
            Some(v) => v,
            None => { return None; },
        };
        let reserved: [u8; 16] = [
            buf[20],
            buf[21],
            buf[22],
            buf[23],
            buf[24],
            buf[25],
            buf[26],
            buf[27],
            buf[28],
            buf[29],
            buf[30],
            buf[31],
            buf[32],
            buf[33],
            buf[34],
            buf[35],
        ];
        let flags = CalibrationStatus::read(slice_subrange(buf, 36, 37));
        proof {
            assert(reserved@ =~= buf@.subrange(20, 36));
        }
        Some(
            StreamConfigurationResponse {
                stream_type,
                gyro_fsr,
                accel_fsr,
                update_rate,
                calibrated_yaw_offset,
                reserved,
                flags,
            },
        )
    }
}

/// A command configuring which stream a board emits and at what rate. Hosts
/// build it, the crate serializes it; it is not decoded from the wire.
#[derive(Clone, Copy, Debug, PartialEq, Eq, Structural)]
pub struct StreamConfigurationCommand {
    stream_type: StreamType,
    update_rate: u8,
}

impl StreamConfigurationCommand {
    /// The configured stream.
    pub closed spec fn spec_stream_type(&self) -> StreamType {
        self.stream_type
    }

    /// The configured update rate.
    pub closed spec fn spec_update_rate(&self) -> u8 {
        self.update_rate
    }

    /// The configured stream.
    pub fn stream_type(&self) -> (r: StreamType)
        ensures
            r == self.spec_stream_type(),
    {
        self.stream_type
    }

    /// The configured update rate.
    pub fn update_rate(&self) -> (r: u8)
        ensures
            r == self.spec_update_rate(),
    {
        self.update_rate
    }

    /// Build a command for one stream at the given update rate.
    pub fn new(stream_type: StreamType, update_rate: u8) -> (r: Self)
        ensures
            r.spec_stream_type() == stream_type,
            r.spec_update_rate() == update_rate,
    {
        StreamConfigurationCommand { stream_type, update_rate }
    }
}

} // verus!
