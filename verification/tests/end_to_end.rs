//! End-to-end scenarios through the full stack: host commands, serialized
//! packets, the framer, the dispatcher, the manager, the driver and a
//! simulated chip, with nothing mocked in between.

use flash_protocol::{
    content_hash, Command, FlashCommands, HostError, Packet, PacketChannel, SimChannel, SimFlash,
    Status,
};

fn test_channel() -> SimChannel {
    let sim = SimFlash::new(0xEF4018, 16 * 1024 * 1024);
    let channel = SimChannel::new(sim);
    assert!(channel.device_available());
    channel
}

fn pattern(len: usize) -> Vec<u8> {
    (0..len).map(|i| ((i * 31 + 7) % 256) as u8).collect()
}

#[test]
fn end_to_end_info_request() {
    let mut commands = FlashCommands::new(test_channel());
    let info = commands.get_info().unwrap();
    assert_eq!(info.jedec_id, 0xEF4018);
    assert_eq!(info.total_size, 16 * 1024 * 1024);
    assert_eq!(info.page_size, 256);
    assert_eq!(info.sector_size, 4096);
}

#[test]
fn end_to_end_write_and_read_back() {
    let mut commands = FlashCommands::new(test_channel());
    let data = pattern(5000);
    commands.write(0x00001000, &data).unwrap();
    let read_back = commands.read(0x00001000, 0x2400 - 0x1000).unwrap();
    assert_eq!(read_back.len(), 0x1400);
    assert_eq!(&read_back[..5000], &data[..]);
    // The bytes past the written range are still erased.
    assert!(read_back[5000..].iter().all(|&b| b == 0xFF));
}

#[test]
fn end_to_end_erase_then_read() {
    let mut commands = FlashCommands::new(test_channel());
    let data = pattern(300);
    commands.write(0x2000, &data).unwrap();
    commands.erase(0x2000, 300).unwrap();
    let read_back = commands.read(0x2000, 300).unwrap();
    assert_eq!(read_back, vec![0xFF; 300]);
}

#[test]
fn end_to_end_status_register() {
    let mut commands = FlashCommands::new(test_channel());
    let status = commands.read_status().unwrap();
    assert_eq!(status & 0x01, 0);
}

#[test]
fn end_to_end_stream_write() {
    let mut commands = FlashCommands::new(test_channel());
    let data = pattern(3000);
    let confirmed = commands.stream_write_with_progress(0x4000, &data).unwrap();
    assert!(confirmed);
    let read_back = commands.read(0x4000, 3000).unwrap();
    assert_eq!(read_back, data);
}

#[test]
fn end_to_end_batch_write() {
    let mut commands = FlashCommands::new(test_channel());
    let data = pattern(2500);
    commands.batch_write_with_progress(0x6000, &data).unwrap();
    assert_eq!(commands.read_with_progress(0x6000, 2500).unwrap(), data);
}

#[test]
fn verification_strategies_agree_on_clean_data() {
    let mut commands = FlashCommands::new(test_channel());
    let data = pattern(1500);
    commands.write(0x8000, &data).unwrap();
    // Strategy 1: direct readback comparison.
    commands.verify_write(0x8000, &data).unwrap();
    // Device-side byte comparison.
    commands.verify(0x8000, &data).unwrap();
    // Strategy 2: whole-buffer content-hash comparison.
    commands.verify_with_hash(0x8000, &data).unwrap();
    // Strategy 3: block-level checksum comparison.
    commands.verify_with_crc(0x8000, &data).unwrap();
    commands.verify_with_progressive_crc(0x8000, &data).unwrap();
}

#[test]
fn verification_strategies_agree_on_corruption() {
    let sim = SimFlash::new(0xEF4018, 16 * 1024 * 1024);
    let data = pattern(1500);
    let channel = SimChannel::new(sim);
    let mut commands = FlashCommands::new(channel);
    commands.write(0x8000, &data).unwrap();
    // Verify against an expectation that differs from the stored bytes at
    // exactly one position: every strategy must report the mismatch.
    let mut corrupted = data.clone();
    corrupted[700] ^= 0x01;
    // Strategy 1 detects the difference and names the first differing byte.
    match commands.verify_write(0x8000, &corrupted) {
        Err(HostError::VerifyFailed {
            offset,
            expected,
            actual,
            ..
        }) => {
            assert_eq!(offset, 700);
            assert_eq!(expected, corrupted[700]);
            assert_eq!(actual, data[700]);
        }
        other => panic!("expected a readback mismatch, got {:?}", other),
    }
    // Device-side comparison detects it.
    assert!(matches!(
        commands.verify(0x8000, &corrupted),
        Err(HostError::Device(Status::VerificationFailed))
    ));
    // Strategy 2 detects it.
    assert!(matches!(
        commands.verify_with_hash(0x8000, &corrupted),
        Err(HostError::HashMismatch)
    ));
    // Strategy 3 detects it.
    assert!(matches!(
        commands.verify_with_crc(0x8000, &corrupted),
        Err(HostError::BlockCrcMismatch(_))
    ));
    assert!(matches!(
        commands.verify_with_progressive_crc(0x8000, &corrupted),
        Err(HostError::BlockCrcMismatch(_))
    ));
}

#[test]
fn write_and_verify_with_progress_round_trip() {
    let mut commands = FlashCommands::new(test_channel());
    let data = pattern(70000);
    commands.write_and_verify_with_progress(0x10000, &data).unwrap();
}

#[test]
fn content_hash_is_a_real_digest() {
    // If the hash function handed its input back unchanged, the digest of a
    // five-byte buffer would have five bytes and equal the input.
    let data = vec![1u8, 2, 3, 4, 5];
    let digest = content_hash(&data);
    assert_eq!(digest.len(), 32);
    assert_ne!(&digest[..5], &data[..]);
    // Equal inputs give equal digests; a differing input gives another.
    assert_eq!(content_hash(&data), digest);
    assert_ne!(content_hash(&[1u8, 2, 3, 4, 6]), digest);
}

#[test]
fn timeout_surfaces_as_timeout_status() {
    let mut sim = SimFlash::new(0xEF4018, 64 * 1024);
    sim.set_stuck_busy();
    let channel = SimChannel::new(sim);
    let mut commands = FlashCommands::new(channel);
    // A chip whose busy bit never clears is reported as a timeout, which the
    // host can tell apart from a bus fault.
    let result = commands.write(0x0, &[1, 2, 3]);
    assert_eq!(result, Err(HostError::Device(Status::Timeout)));
}

#[test]
fn empty_transfers_succeed_without_bus_traffic() {
    let mut commands = FlashCommands::new(test_channel());
    commands.write(0x100, &[]).unwrap();
    commands.verify_write(0x100, &[]).unwrap();
    commands.verify(0x100, &[]).unwrap();
    commands.verify_with_hash(0x100, &[]).unwrap();
    commands.verify_with_progressive_crc(0x100, &[]).unwrap();
    assert_eq!(commands.read(0x100, 0).unwrap(), Vec::<u8>::new());
}

#[test]
fn malformed_requests_get_invalid_address() {
    let mut channel = test_channel();
    // An erase request whose payload is too short to carry the size.
    let packet = Packet::new(Command::Erase, 0x1000, vec![1, 2]);
    let response = channel.transact(&packet).unwrap();
    assert_eq!(response.status, Status::InvalidAddress);
    // A read request asking for more than the maximum payload.
    let too_big = Packet::new(Command::Read, 0, 2048u32.to_le_bytes().to_vec());
    let response = channel.transact(&too_big).unwrap();
    assert_eq!(response.status, Status::InvalidAddress);
    // A read request past the end of the device.
    let past_end = Packet::new(Command::Read, 0xFFFFFFF0, 64u32.to_le_bytes().to_vec());
    let response = channel.transact(&past_end).unwrap();
    assert_eq!(response.status, Status::InvalidAddress);
}

#[test]
fn batch_ack_is_acknowledged() {
    let mut channel = test_channel();
    let packet = Packet::new(Command::BatchAck, 0, Vec::new());
    let response = channel.transact(&packet).unwrap();
    assert_eq!(response.status, Status::Success);
}
