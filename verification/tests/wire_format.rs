//! Wire format tests: serialization round trips, checksum behaviour, and
//! each way decoding can be refused.

use flash_protocol::{crc32, Command, DecodeError, Packet, Response, Status, PACKET_MAGIC};
use flash_protocol::{decode_flash_info, encode_flash_info, FlashInfo};

#[test]
fn test_packet_serialization() {
    let data = vec![0x01, 0x02, 0x03, 0x04];
    let packet = Packet::new(Command::Write, 0x1000, data.clone());

    let bytes = packet.to_bytes();
    let decoded = Packet::from_bytes(&bytes).unwrap();

    assert_eq!(packet.command, decoded.command);
    assert_eq!(packet.address, decoded.address);
    assert_eq!(packet.data, decoded.data);
    assert!(decoded.verify_crc());
}

#[test]
fn test_response_serialization() {
    let data = vec![0xAA, 0xBB, 0xCC, 0xDD];
    let response = Response::new(Status::Success, data.clone());

    let bytes = response.to_bytes();
    let decoded = Response::from_bytes(&bytes).unwrap();

    assert_eq!(response.status, decoded.status);
    assert_eq!(response.data, decoded.data);
    assert!(decoded.verify_crc());
}

#[test]
fn packet_round_trip_all_commands() {
    let commands = [
        Command::Info,
        Command::Erase,
        Command::Write,
        Command::Read,
        Command::Verify,
        Command::BatchWrite,
        Command::BatchAck,
        Command::StreamWrite,
        Command::VerifyCRC,
        Command::Status,
    ];
    for (i, &command) in commands.iter().enumerate() {
        let data: Vec<u8> = (0..i as u8).collect();
        let packet = Packet::new_with_sequence(command, 0x123456, data, i as u16);
        let decoded = Packet::from_bytes(&packet.to_bytes()).unwrap();
        assert_eq!(packet, decoded);
    }
}

#[test]
fn packet_round_trip_empty_payload() {
    let packet = Packet::new(Command::Info, 0, Vec::new());
    assert_eq!(packet.length, 0);
    let decoded = Packet::from_bytes(&packet.to_bytes()).unwrap();
    assert_eq!(packet, decoded);
}

#[test]
fn response_round_trip_all_statuses() {
    let statuses = [
        Status::Success,
        Status::InvalidCommand,
        Status::InvalidAddress,
        Status::FlashError,
        Status::CrcError,
        Status::BufferOverflow,
        Status::Timeout,
        Status::VerificationFailed,
        Status::Unknown,
    ];
    for (i, &status) in statuses.iter().enumerate() {
        let data: Vec<u8> = vec![i as u8; i];
        let response = Response::new(status, data);
        let decoded = Response::from_bytes(&response.to_bytes()).unwrap();
        assert_eq!(response, decoded);
    }
}

#[test]
fn packet_single_bit_flip_is_rejected() {
    let data = vec![0x5A, 0x00, 0xFF, 0x17, 0x2C];
    let packet = Packet::new_with_sequence(Command::Write, 0x00ABCDEF, data, 7);
    let bytes = packet.to_bytes();
    let crc_start = bytes.len() - 4;
    for byte_index in 0..crc_start {
        for bit in 0..8 {
            let mut corrupted = bytes.clone();
            corrupted[byte_index] ^= 1 << bit;
            assert!(
                Packet::from_bytes(&corrupted).is_err(),
                "flip of bit {} in byte {} was accepted",
                bit,
                byte_index
            );
        }
    }
}

#[test]
fn packet_flip_inside_checksum_is_rejected() {
    let packet = Packet::new(Command::Status, 0, vec![1, 2, 3]);
    let bytes = packet.to_bytes();
    for byte_index in bytes.len() - 4..bytes.len() {
        for bit in 0..8 {
            let mut corrupted = bytes.clone();
            corrupted[byte_index] ^= 1 << bit;
            assert!(Packet::from_bytes(&corrupted).is_err());
        }
    }
}

#[test]
fn response_single_bit_flip_is_rejected() {
    let response = Response::new(Status::Success, vec![9, 8, 7, 6]);
    let bytes = response.to_bytes();
    let crc_start = bytes.len() - 4;
    for byte_index in 0..crc_start {
        for bit in 0..8 {
            let mut corrupted = bytes.clone();
            corrupted[byte_index] ^= 1 << bit;
            assert!(Response::from_bytes(&corrupted).is_err());
        }
    }
}

#[test]
fn packet_decode_too_short() {
    let packet = Packet::new(Command::Info, 0, Vec::new());
    let bytes = packet.to_bytes();
    assert_eq!(Packet::from_bytes(&bytes[..16]), Err(DecodeError::TooShort));
    assert_eq!(Packet::from_bytes(&[]), Err(DecodeError::TooShort));
}

#[test]
fn packet_decode_bad_magic() {
    let packet = Packet::new(Command::Info, 0, Vec::new());
    let mut bytes = packet.to_bytes();
    bytes[1] = 0x00;
    assert_eq!(Packet::from_bytes(&bytes), Err(DecodeError::BadMagic));
}

#[test]
fn packet_decode_invalid_command() {
    let packet = Packet::new(Command::Info, 0, Vec::new());
    let mut bytes = packet.to_bytes();
    bytes[2] = 0x0B;
    assert_eq!(Packet::from_bytes(&bytes), Err(DecodeError::InvalidCommand));
}

#[test]
fn packet_decode_oversized_length() {
    let packet = Packet::new(Command::Write, 0, vec![0; 8]);
    let mut bytes = packet.to_bytes();
    // Declare a length above the maximum payload size (little-endian 1025).
    bytes[3] = 0x01;
    bytes[4] = 0x04;
    bytes[5] = 0x00;
    bytes[6] = 0x00;
    assert_eq!(Packet::from_bytes(&bytes), Err(DecodeError::LengthTooLarge));
}

#[test]
fn packet_decode_incomplete() {
    let packet = Packet::new(Command::Write, 0, vec![1, 2, 3, 4, 5, 6, 7, 8]);
    let bytes = packet.to_bytes();
    assert_eq!(
        Packet::from_bytes(&bytes[..bytes.len() - 1]),
        Err(DecodeError::Incomplete)
    );
}

#[test]
fn packet_decode_crc_mismatch() {
    let packet = Packet::new(Command::Write, 0x40, vec![1, 2, 3]);
    let mut bytes = packet.to_bytes();
    let last = bytes.len() - 1;
    bytes[last] ^= 0xFF;
    assert_eq!(Packet::from_bytes(&bytes), Err(DecodeError::CrcMismatch));
}

#[test]
fn response_decode_errors() {
    let response = Response::new(Status::Success, vec![1, 2]);
    let bytes = response.to_bytes();
    assert_eq!(
        Response::from_bytes(&bytes[..10]),
        Err(DecodeError::TooShort)
    );
    let mut wrong_magic = bytes.clone();
    wrong_magic[0] = 0x00;
    assert_eq!(Response::from_bytes(&wrong_magic), Err(DecodeError::BadMagic));
    assert_eq!(
        Response::from_bytes(&bytes[..bytes.len() - 2]),
        Err(DecodeError::Incomplete)
    );
    let mut bad_crc = bytes.clone();
    bad_crc[7] ^= 0x01;
    assert_eq!(Response::from_bytes(&bad_crc), Err(DecodeError::CrcMismatch));
}

#[test]
fn unknown_status_bytes_decode_as_unknown() {
    let response = Response::new(Status::Unknown, Vec::new());
    let mut bytes = response.to_bytes();
    assert_eq!(bytes[2], 0xFF);
    // A status byte outside the closed set decodes as Unknown, and the
    // checksum is recomputed over that canonical encoding, so the frame
    // still parses and reports Unknown.
    bytes[2] = 0x30;
    let patched = Response::from_bytes(&bytes).unwrap();
    assert_eq!(patched.status, Status::Unknown);
    // For a frame carrying a listed status, a corrupted status byte is
    // caught by the checksum.
    let success = Response::new(Status::Success, Vec::new());
    let mut corrupted = success.to_bytes();
    corrupted[2] = 0x30;
    assert_eq!(Response::from_bytes(&corrupted), Err(DecodeError::CrcMismatch));
}

#[test]
fn crc32_known_answer() {
    // The standard check value for this CRC-32 variant.
    assert_eq!(crc32(b"123456789"), 0xCBF43926);
    assert_eq!(crc32(b""), 0x00000000);
}

#[test]
fn crc32_matches_crc32fast() {
    let samples: [&[u8]; 4] = [b"", b"a", b"hello flash", &[0xFF; 300]];
    for sample in samples.iter() {
        assert_eq!(crc32(sample), crc32fast::hash(sample));
    }
}

#[test]
fn crc32_matches_crc_crate_iso_hdlc() {
    let hasher = crc::Crc::<u32>::new(&crc::CRC_32_ISO_HDLC);
    let samples: [&[u8]; 3] = [b"123456789", b"", b"\x00\x01\x02\x03"];
    for sample in samples.iter() {
        assert_eq!(crc32(sample), hasher.checksum(sample));
    }
}

#[test]
fn packet_crc_covers_all_header_fields() {
    let a = Packet::new_with_sequence(Command::Write, 0x1000, vec![1], 1);
    let b = Packet::new_with_sequence(Command::Write, 0x1001, vec![1], 1);
    let c = Packet::new_with_sequence(Command::Write, 0x1000, vec![1], 2);
    let d = Packet::new_with_sequence(Command::Read, 0x1000, vec![1], 1);
    assert_ne!(a.crc, b.crc);
    assert_ne!(a.crc, c.crc);
    assert_ne!(a.crc, d.crc);
}

#[test]
fn packet_magic_on_the_wire() {
    let packet = Packet::new(Command::Info, 0, Vec::new());
    let bytes = packet.to_bytes();
    assert_eq!(bytes[0], 0xCD);
    assert_eq!(bytes[1], 0xAB);
    assert_eq!(u16::from_le_bytes([bytes[0], bytes[1]]), PACKET_MAGIC);
}

#[test]
fn info_payload_round_trip() {
    let info = FlashInfo {
        jedec_id: 0xEF4018,
        total_size: 16 * 1024 * 1024,
        page_size: 256,
        sector_size: 4096,
    };
    let payload = encode_flash_info(&info);
    assert_eq!(payload.len(), 16);
    let decoded = decode_flash_info(&payload).unwrap();
    assert_eq!(decoded, info);
    assert_eq!(decode_flash_info(&payload[..15].to_vec()), None);
}
