//! Checksum and packet behaviour over the wire format.

use navx::protocol::ahrs::{BoardID, IntegrationControl};
use navx::protocol::{get_crc, validate_response, NavX, Packet, SerialIO};
use navx::register::packet::RegisterPacket;
use navx::registers::{dec_prot_i16, dec_prot_i32, dec_prot_u16, dec_prot_u32, getCRC};

fn crc_reference(data: &[u8]) -> u8 {
    let mut crc: u8 = 0;
    for &b in data {
        crc ^= b;
        for _ in 0..8 {
            if crc & 1 != 0 {
                crc ^= 0x91;
            }
            crc >>= 1;
        }
    }
    crc
}

#[test]
fn crc_matches_captured_request_vectors() {
    assert_eq!(get_crc(&[0x00, 0x04], 2), 0x26);
    assert_eq!(get_crc(&[0x04, 0x04], 2), 0x01);
    assert_eq!(get_crc(&[0x08, 0x09], 2), 0x43);
    assert_eq!(get_crc(&[0x2A, 0x08], 2), 0x43);
    assert_eq!(get_crc(&[0x84, 0x32], 2), 0x47);
    assert_eq!(get_crc(&[0x55, 0x12], 2), 0x61);
}

#[test]
fn crc_is_deterministic() {
    let spans: [&[u8]; 4] = [&[], &[0x00], &[0x12, 0x34, 0x56], &[0xFF; 16]];
    for span in spans {
        assert_eq!(get_crc(span, span.len()), get_crc(span, span.len()));
        assert_eq!(get_crc(span, span.len()), crc_reference(span));
    }
}

#[test]
fn crc_of_empty_span_is_zero() {
    assert_eq!(get_crc(&[], 0), 0);
}

#[test]
fn crc_changes_under_any_single_bit_flip() {
    let base: [u8; 4] = [0x21, 0x01, 0x02, 0x03];
    let original = get_crc(&base, 4);
    for i in 0..4 {
        for k in 0..8 {
            let mut corrupted = base;
            corrupted[i] ^= 1 << k;
            assert_ne!(get_crc(&corrupted, 4), original);
        }
    }
}

#[test]
fn crc_prefix_length_is_respected() {
    let span = [0x08, 0x09, 0xAA, 0xBB];
    assert_eq!(get_crc(&span, 2), 0x43);
    assert_eq!(getCRC(&span, 2), 0x43);
    assert_eq!(getCRC(&span, 4), crc_reference(&span));
}

#[test]
fn validate_response_accepts_only_the_matching_checksum() {
    let payload = [0x21, 0x01, 0x02, 0x03];
    let checksum = get_crc(&payload, 4);
    assert_eq!(checksum, 0x2C);
    assert!(validate_response(&payload, checksum));
    for k in 0..8 {
        assert!(!validate_response(&payload, checksum ^ (1 << k)));
    }
}

#[test]
fn read_request_round_trips_through_validation() {
    for (address, length) in [(0x00u8, 4u8), (0x04, 4), (0x08, 9), (0x2A, 8), (0x7F, 255)] {
        let wire = RegisterPacket::new(address, length).pack();
        assert_eq!(wire.len(), 3);
        assert_eq!(wire[0], address);
        assert_eq!(wire[1], length);
        assert!(validate_response(&wire[..2], wire[2]));
    }
}

#[test]
fn pack_write_flags_the_register_byte_before_the_checksum() {
    let wire = RegisterPacket::new(0x04, 0x32).pack_write();
    assert_eq!(wire.len(), 3);
    assert_eq!(wire[0], 0x84);
    assert_eq!(wire[1], 0x32);
    assert_eq!(wire[2], 0x47);
    assert!(validate_response(&wire[..2], wire[2]));
}

#[test]
fn packet_len_is_three() {
    let packet = RegisterPacket::new(0x00, 4);
    assert_eq!(packet.len(), 3);
}

#[test]
fn raw_register_decoders_agree_with_the_codec() {
    let span = [0x34u8, 0x12, 0xCD, 0xAB];
    assert_eq!(dec_prot_u16(&span), navx::serde::read_u16(&span));
    assert_eq!(dec_prot_i16(&span), navx::serde::read_i16(&span));
    assert_eq!(dec_prot_u32(&span), navx::serde::read_u32(&span));
    assert_eq!(dec_prot_i32(&span), navx::serde::read_i32(&span));
    assert_eq!(dec_prot_u16(&span), 0x1234);
    assert_eq!(dec_prot_u32(&span), 0xABCD1234);
}

#[test]
fn register_map_addresses_are_stable() {
    assert_eq!(navx::registers::NAVX_REG_WHOAMI, 0x00);
    assert_eq!(navx::registers::NAVX_REG_UPDATE_RATE_HZ, 0x04);
    assert_eq!(navx::registers::NAVX_REG_OP_STATUS, 0x08);
    assert_eq!(navx::registers::NAVX_REG_QUAT_W_L, 0x2A);
    assert_eq!(navx::registers::NAVX_REG_LAST, 0x6F);
}

#[test]
fn navx_handle_wraps_and_returns_its_driver() {
    let handle = NavX::init(17u32);
    assert_eq!(handle.into_inner(), 17);
}

#[test]
fn serial_io_wraps_a_channel() {
    let _io = SerialIO::new(vec![1u8, 2, 3]);
}

#[test]
fn ahrs_record_shapes_default() {
    let id = BoardID::default();
    assert_eq!(id.fw_revision, 0);
    assert_eq!(id.unique_id, [0u8; 12]);
    let ctl = IntegrationControl { action: navx::serde::RESET_ALL, parameter: 0 };
    assert_eq!(ctl.action, 0xBF);
}
