//! The register protocol driver against a scripted transport.

use navx::protocol::{get_crc, Failure, FatalReason, FromBuffer, FromBufferFallible, Request, Transport};
use navx::register::storage::{Addressable, Config, Identity, Quaternion, Status};
use navx::register::{process_response, RegisterIO};
use navx::serde::OperationStatus;
use navx::serial::storage::DirectionalUpdate;
use navx::watch::Watch;

/// A transport that answers every read with a fixed frame and records what
/// was written to it.
struct ScriptedTransport {
    frame: Vec<u8>,
    written: Vec<Vec<u8>>,
    write_result: Option<Result<usize, Failure>>,
}

impl ScriptedTransport {
    fn answering(frame: Vec<u8>) -> Self {
        ScriptedTransport { frame, written: Vec::new(), write_result: None }
    }
}

impl Transport for ScriptedTransport {
    fn write(&mut self, data: &[u8]) -> Result<usize, Failure> {
        self.written.push(data.to_vec());
        match self.write_result {
            Some(r) => r,
            None => Ok(data.len()),
        }
    }

    fn read(&mut self, max: usize) -> Result<Vec<u8>, Failure> {
        let take = max.min(self.frame.len());
        Ok(self.frame[..take].to_vec())
    }
}

fn framed(payload: &[u8]) -> Vec<u8> {
    let mut frame = payload.to_vec();
    frame.push(get_crc(payload, payload.len()));
    frame
}

#[test]
fn identity_request_round_trip() {
    let payload = [0x21, 0x01, 0x02, 0x03];
    let mut io = RegisterIO::new(ScriptedTransport::answering(framed(&payload)));
    let identity: Identity = io.request_record().expect("a valid frame decodes");
    assert_eq!(identity.identity, 0x21);
    assert_eq!(identity.board_revision, 0x01);
    assert_eq!(identity.firmware_major_version, 0x02);
    assert_eq!(identity.firmware_minor_version, 0x03);
}

#[test]
fn the_request_on_the_wire_is_the_packed_read_packet() {
    let payload = [0x21, 0x01, 0x02, 0x03];
    let mut io = RegisterIO::new(ScriptedTransport::answering(framed(&payload)));
    let r: Result<Identity, Failure> = io.read();
    assert!(r.is_ok());
    let transport = io.into_inner();
    // A read request for the identity record: address 0, read flag clear,
    // length 4, and the checksum over those two bytes.
    assert_eq!(transport.written, vec![vec![0x00, 0x04, get_crc(&[0x00, 0x04], 2)]]);
}

#[test]
fn corrupted_checksum_is_invalid_and_not_decoded() {
    let payload = [0x21, 0x01, 0x02, 0x03];
    let mut frame = framed(&payload);
    let last = frame.len() - 1;
    frame[last] ^= 0x01;
    let mut io = RegisterIO::new(ScriptedTransport::answering(frame));
    let r: Result<Identity, Failure> = io.request_record();
    assert_eq!(r, Err(Failure::Invalid));
}

#[test]
fn every_single_bit_corruption_of_the_checksum_is_rejected() {
    let payload = [0x21, 0x01, 0x02, 0x03];
    for k in 0..8 {
        let mut frame = framed(&payload);
        let last = frame.len() - 1;
        frame[last] ^= 1 << k;
        let r: Result<Identity, Failure> = process_response(&frame);
        assert_eq!(r, Err(Failure::Invalid));
    }
}

#[test]
fn corrupted_payload_is_invalid() {
    let payload = [0x21, 0x01, 0x02, 0x03];
    let mut frame = framed(&payload);
    frame[1] ^= 0x10;
    let r: Result<Identity, Failure> = process_response(&frame);
    assert_eq!(r, Err(Failure::Invalid));
}

#[test]
fn short_read_is_transient() {
    let payload = [0x21, 0x01];
    let mut io = RegisterIO::new(ScriptedTransport::answering(payload.to_vec()));
    let r: Result<Identity, Failure> = io.request_record();
    assert_eq!(r, Err(Failure::Transient));
}

#[test]
fn short_write_is_fatal() {
    let payload = [0x21, 0x01, 0x02, 0x03];
    let mut transport = ScriptedTransport::answering(framed(&payload));
    transport.write_result = Some(Ok(1));
    let mut io = RegisterIO::new(transport);
    let r: Result<Identity, Failure> = io.request_record();
    assert_eq!(r, Err(Failure::Fatal(FatalReason::ShortWrite)));
}

#[test]
fn transport_errors_pass_through() {
    let payload = [0x21, 0x01, 0x02, 0x03];
    let mut transport = ScriptedTransport::answering(framed(&payload));
    transport.write_result = Some(Err(Failure::Fatal(FatalReason::Device(32))));
    let mut io = RegisterIO::new(transport);
    let r: Result<Identity, Failure> = io.request_record();
    assert_eq!(r, Err(Failure::Fatal(FatalReason::Device(32))));
}

#[test]
fn out_of_range_status_byte_is_clamped_not_rejected() {
    // Operating status byte 5 is out of range; the clamping policy makes it
    // the nearest valid state rather than a failed decode.
    let payload = [5u8, 0x0F, 0x8F, 0x44, 0x03, 0, 0, 0, 0];
    let mut io = RegisterIO::new(ScriptedTransport::answering(framed(&payload)));
    let status: Status = io.request_record().expect("a clamped status byte still decodes");
    assert_eq!(status.operation_status, OperationStatus::Normal);
}

#[test]
fn validated_frame_with_undecodable_interior_is_invalid_not_fatal() {
    // A frame can pass its checksum and still fail to decode: malformed
    // decimal text in a directional update is one invalid attempt, distinct
    // from a checksum failure.
    let mut payload = Vec::new();
    payload.extend_from_slice(b" 010.50");
    payload.extend_from_slice(b"-0X2.25");
    payload.extend_from_slice(b" 000.00");
    payload.extend_from_slice(b" 359.99");
    let frame = framed(&payload);
    let r: Result<DirectionalUpdate, Failure> = process_response(&frame);
    assert_eq!(r, Err(Failure::Invalid));
}

#[test]
fn status_decodes_its_sub_fields() {
    let payload = [4u8, 0x0F, 0x8F, 0x44, 0x03, 0, 0, 0, 0];
    let mut io = RegisterIO::new(ScriptedTransport::answering(framed(&payload)));
    let status: Status = io.request_record().expect("a normal status frame decodes");
    assert_eq!(status.operation_status, OperationStatus::Normal);
    assert_eq!(status.calibration_status.bits, 0x0F);
    assert_eq!(status.self_test_status.bits, 0x8F);
    assert_eq!(status.capabilities.bits, 0x44);
    assert_eq!(status.sensor_status.bits, 0x03);
}

#[test]
fn quaternion_decodes_four_ratio_components() {
    let payload = [0x00, 0x40, 0x00, 0xC0, 0x34, 0x12, 0xFF, 0x7F];
    let q = Quaternion::read(&payload);
    assert_eq!(q.w.raw, 16384);
    assert_eq!(q.x.raw, -16384);
    assert_eq!(q.y.raw, 0x1234);
    assert_eq!(q.z.raw, 32767);
}

#[test]
fn config_decodes() {
    let payload = [50u8, 2, 0xF4, 0x01];
    let c = Config::read(&payload);
    assert_eq!(c.update_rate, 50);
    assert_eq!(c.accel_fsr, 2);
    assert_eq!(c.gyro_fsr, 500);
}

#[test]
fn record_registry_addresses_and_lengths() {
    assert_eq!(Identity::address(), 0x00);
    assert_eq!(Identity::len(), 4);
    assert_eq!(Config::address(), 0x04);
    assert_eq!(Config::len(), 4);
    assert_eq!(Status::address(), 0x08);
    assert_eq!(Status::len(), 9);
    assert_eq!(Quaternion::address(), 0x2A);
    assert_eq!(Quaternion::len(), 8);
}

#[test]
fn request_packets_carry_address_and_length() {
    let p = Identity::request();
    assert_eq!(p.register, 0x00);
    assert_eq!(p.value, 0x04);
    let p = Status::request();
    assert_eq!(p.register, 0x08);
    assert_eq!(p.value, 0x09);
}

#[test]
fn infallible_records_decode_through_the_fallible_trait() {
    let payload = [0x21, 0x01, 0x02, 0x03];
    let identity = Identity::try_read(&payload).expect("an infallible decode always succeeds");
    assert_eq!(identity.identity, 0x21);
}

#[test]
fn a_register_driver_can_be_watched_directly() {
    let payload = [0x21, 0x01, 0x02, 0x03];
    let io = RegisterIO::new(ScriptedTransport::answering(framed(&payload)));
    let mut watcher: navx::watch::Watcher<Identity, _> = io.watch();
    assert!(!watcher.is_ready());
    watcher.poll_once();
    let identity = watcher.get().expect("one poll of a healthy transport caches a record");
    assert_eq!(identity.identity, 0x21);
    watcher.request_stop();
    assert!(watcher.stop().is_ok());
}
