//! The streaming variant: packet framing and record decodes.

use navx::protocol::{FromBuffer, FromBufferFallible};
use navx::register::storage::Quaternion;
use navx::serde::{OperationStatus, StreamType};
use navx::serial::packet::{PacketReader, PACKET_INDICATOR};
use navx::serial::storage::{
    DirectionalUpdate, PositionUpdate, RawDataUpdate, Status, StreamConfigurationCommand,
    StreamConfigurationResponse,
};

#[test]
fn packet_reader_finds_the_first_indicator() {
    let mut reader = PacketReader::new();
    assert_eq!(reader.packet_start(), 0);
    assert!(!reader.has_packet());
    reader.feed(b"noise!yXY");
    assert!(reader.has_packet());
    assert_eq!(reader.packet_start(), 5);
}

#[test]
fn packet_reader_without_indicator_points_past_the_end() {
    let mut reader = PacketReader::new();
    reader.feed(b"no packet here");
    assert!(!reader.has_packet());
    assert_eq!(reader.packet_start(), 14);
}

#[test]
fn packet_reader_keeps_the_earliest_indicator_across_chunks() {
    let mut reader = PacketReader::new();
    reader.feed(b"ab");
    assert!(!reader.has_packet());
    reader.feed(b"cd!ef");
    assert_eq!(reader.packet_start(), 4);
    reader.feed(b"!gh");
    // A later indicator does not displace the first.
    assert_eq!(reader.packet_start(), 4);
    assert_eq!(reader.collected(), b"abcd!ef!gh".len());
}

#[test]
fn indicator_is_the_exclamation_mark() {
    assert_eq!(PACKET_INDICATOR, b'!');
}

#[test]
fn directional_update_parses_four_decimal_fields() {
    let mut buf = Vec::new();
    buf.extend_from_slice(b" 010.50");
    buf.extend_from_slice(b"-002.25");
    buf.extend_from_slice(b" 000.00");
    buf.extend_from_slice(b" 359.99");
    let update = DirectionalUpdate::try_read(&buf).expect("well-formed text decodes");
    assert_eq!(update.yaw.raw, 1050);
    assert_eq!(update.pitch.raw, -225);
    assert_eq!(update.roll.raw, 0);
    assert_eq!(update.compass_heading.raw, 35999);
}

#[test]
fn directional_update_rejects_malformed_text() {
    let mut buf = Vec::new();
    buf.extend_from_slice(b" 010.50");
    buf.extend_from_slice(b"-0X2.25");
    buf.extend_from_slice(b" 000.00");
    buf.extend_from_slice(b" 359.99");
    assert!(DirectionalUpdate::try_read(&buf).is_none());
}

#[test]
fn raw_data_update_decodes_three_vectors_and_the_temperature() {
    let mut buf = vec![0u8; 43];
    // Gyro x = 1, y = 2, z = 3; each scalar in the first two bytes of a
    // four-byte sub-span.
    buf[0] = 1;
    buf[4] = 2;
    buf[8] = 3;
    // Acceleration x = -1.
    buf[12] = 0xFF;
    buf[13] = 0xFF;
    // Magnetometer z = 0x0102.
    buf[32] = 0x02;
    buf[33] = 0x01;
    buf[36..43].copy_from_slice(b" 025.75");
    let update = RawDataUpdate::try_read(&buf).expect("well-formed raw data decodes");
    assert_eq!(update.gyro.x, 1);
    assert_eq!(update.gyro.y, 2);
    assert_eq!(update.gyro.z, 3);
    assert_eq!(update.acceleration.x, -1);
    assert_eq!(update.acceleration.y, 0);
    assert_eq!(update.magnetometer.z, 0x0102);
    assert_eq!(update.temperature.raw, 2575);
}

#[test]
fn serial_status_decodes_and_clamps() {
    let status = Status::try_read(&[2, 0x01, 0x0F, 0x8F]).expect("status byte 2 is in range");
    assert_eq!(status.operation, OperationStatus::Error);
    assert_eq!(status.sensor.bits, 0x01);
    assert_eq!(status.calibration.bits, 0x0F);
    assert_eq!(status.self_test.bits, 0x8F);
    // An out-of-range status byte clamps to the nearest valid state.
    let clamped = Status::try_read(&[9, 0, 0, 0]).expect("status decode is total");
    assert_eq!(clamped.operation, OperationStatus::Normal);
}

#[test]
fn position_update_decodes_every_field_group() {
    let mut buf = vec![0u8; 58];
    // Yaw -180.00, pitch 1.00, roll -1.00, heading 359.99.
    buf[0..2].copy_from_slice(&(-18000i16).to_le_bytes());
    buf[2..4].copy_from_slice(&100i16.to_le_bytes());
    buf[4..6].copy_from_slice(&(-100i16).to_le_bytes());
    buf[6..8].copy_from_slice(&35999u16.to_le_bytes());
    // Altitude 2.5 in 16.16 fixed-point.
    buf[8..12].copy_from_slice(&(5u32 * 65536 / 2).to_le_bytes());
    buf[12..14].copy_from_slice(&18000u16.to_le_bytes());
    // Linear acceleration x, y, z in thousandths.
    buf[14..16].copy_from_slice(&1000i16.to_le_bytes());
    buf[16..18].copy_from_slice(&(-1000i16).to_le_bytes());
    buf[18..20].copy_from_slice(&500i16.to_le_bytes());
    // Velocity x = 1.0, displacement z = 3.0.
    buf[20..24].copy_from_slice(&65536u32.to_le_bytes());
    buf[40..44].copy_from_slice(&(3 * 65536u32).to_le_bytes());
    // Quaternion w = 1.0 ratio.
    buf[44..46].copy_from_slice(&16384i16.to_le_bytes());
    // Die temperature 25.50.
    buf[52..54].copy_from_slice(&2550i16.to_le_bytes());
    // Status block: normal operation.
    buf[54] = 4;
    buf[55] = 0x03;
    buf[56] = 0x0F;
    buf[57] = 0x8F;
    let update = PositionUpdate::try_read(&buf).expect("a well-formed position update decodes");
    assert_eq!(update.yaw.raw, -18000);
    assert_eq!(update.pitch.raw, 100);
    assert_eq!(update.roll.raw, -100);
    assert_eq!(update.compass_heading.raw, 35999);
    assert_eq!(update.altitude.raw, 163840);
    assert_eq!(update.fused_heading.raw, 18000);
    assert_eq!(update.linear_accel.x.raw, 1000);
    assert_eq!(update.linear_accel.y.raw, -1000);
    assert_eq!(update.linear_accel.z.raw, 500);
    assert_eq!(update.linear_velocity.x.raw, 65536);
    assert_eq!(update.linear_velocity.y.raw, 0);
    assert_eq!(update.displacement.z.raw, 3 * 65536);
    assert_eq!(update.quaternion.w.raw, 16384);
    assert_eq!(update.mpu_temp.raw, 2550);
    assert_eq!(update.status.operation, OperationStatus::Normal);
    assert_eq!(update.status.sensor.bits, 0x03);
}

#[test]
fn position_update_with_out_of_range_status_is_clamped() {
    let mut buf = vec![0u8; 58];
    buf[54] = 200;
    let update = PositionUpdate::try_read(&buf).expect("the status sub-decode clamps");
    assert_eq!(update.status.operation, OperationStatus::Normal);
}

#[test]
fn quaternion_read_matches_independent_component_decodes() {
    let buf = [0x00u8, 0x40, 0x00, 0xC0, 0x34, 0x12, 0xFF, 0x7F];
    let q = Quaternion::read(&buf);
    assert_eq!(q.w.raw, navx::serde::read_i16(&buf[0..2]));
    assert_eq!(q.x.raw, navx::serde::read_i16(&buf[2..4]));
    assert_eq!(q.y.raw, navx::serde::read_i16(&buf[4..6]));
    assert_eq!(q.z.raw, navx::serde::read_i16(&buf[6..8]));
}

#[test]
fn stream_configuration_response_decodes() {
    let mut buf = Vec::new();
    buf.push(b'y');
    buf.extend_from_slice(b"01F4");
    buf.extend_from_slice(b"0002");
    buf.extend_from_slice(b"0032");
    buf.extend_from_slice(b"-012.34");
    buf.extend_from_slice(&[0xAAu8; 16]);
    buf.push(0xFF);
    let response =
        StreamConfigurationResponse::try_read(&buf).expect("a well-formed response decodes");
    assert_eq!(response.stream_type, StreamType::Directional);
    assert_eq!(response.gyro_fsr, 500);
    assert_eq!(response.accel_fsr, 2);
    assert_eq!(response.update_rate, 50);
    assert_eq!(response.calibrated_yaw_offset.raw, -1234);
    assert_eq!(response.reserved, [0xAA; 16]);
    assert_eq!(response.flags.bits, 0x0F);
}

#[test]
fn stream_configuration_response_rejects_bad_hex() {
    let mut buf = Vec::new();
    buf.push(b'y');
    buf.extend_from_slice(b"01G4");
    buf.extend_from_slice(b"0002");
    buf.extend_from_slice(b"0032");
    buf.extend_from_slice(b"-012.34");
    buf.extend_from_slice(&[0u8; 16]);
    buf.push(0);
    assert!(StreamConfigurationResponse::try_read(&buf).is_none());
}

#[test]
fn stream_configuration_command_carries_its_settings() {
    let command = StreamConfigurationCommand::new(StreamType::Position, 60);
    assert_eq!(command.stream_type(), StreamType::Position);
    assert_eq!(command.update_rate(), 60);
}
