//! Dispatcher tests: packet handling against a simulated device, and the
//! firmware-side session that turns raw inbound bytes into response bytes.

use flash_protocol::{
    handle_packet, Command, Packet, ProtocolHandler, Response, SafeFlashManager, SimFlash, Status,
};

fn ready_manager() -> SafeFlashManager<SimFlash> {
    let sim = SimFlash::new(0xEF4018, 64 * 1024);
    let mut manager = SafeFlashManager::new(sim);
    manager.try_initialize().unwrap();
    manager
}

#[test]
fn acknowledged_commands_get_a_response() {
    let mut manager = ready_manager();
    let write = Packet::new(Command::Write, 0x100, vec![1, 2, 3]);
    let response = handle_packet(&write, &mut manager).unwrap();
    assert_eq!(response.status, Status::Success);

    let read = Packet::new(Command::Read, 0x100, 3u32.to_le_bytes().to_vec());
    let response = handle_packet(&read, &mut manager).unwrap();
    assert_eq!(response.status, Status::Success);
    assert_eq!(response.data, vec![1, 2, 3]);
}

#[test]
fn fire_and_forget_commands_get_none_but_still_write() {
    let mut manager = ready_manager();
    let stream = Packet::new(Command::StreamWrite, 0x200, vec![9, 9]);
    assert!(handle_packet(&stream, &mut manager).is_none());
    let batch = Packet::new(Command::BatchWrite, 0x202, vec![7]);
    assert!(handle_packet(&batch, &mut manager).is_none());

    let read = Packet::new(Command::Read, 0x200, 3u32.to_le_bytes().to_vec());
    let response = handle_packet(&read, &mut manager).unwrap();
    assert_eq!(response.data, vec![9, 9, 7]);
}

#[test]
fn unavailable_device_answers_flash_error() {
    let sim = SimFlash::new(0xEF4018, 64 * 1024);
    // No probe: the manager never becomes available.
    let mut manager = SafeFlashManager::new(sim);
    let info = Packet::new(Command::Info, 0, Vec::new());
    let response = handle_packet(&info, &mut manager).unwrap();
    assert_eq!(response.status, Status::FlashError);
}

#[test]
fn verify_crc_command_checks_stored_bytes() {
    let mut manager = ready_manager();
    let data = vec![0x10, 0x20, 0x30, 0x40];
    let write = Packet::new(Command::Write, 0x300, data.clone());
    handle_packet(&write, &mut manager).unwrap();

    let good_crc = flash_protocol::crc32(&data);
    let mut payload = good_crc.to_le_bytes().to_vec();
    payload.extend_from_slice(&(data.len() as u32).to_le_bytes());
    let verify = Packet::new(Command::VerifyCRC, 0x300, payload);
    let response = handle_packet(&verify, &mut manager).unwrap();
    assert_eq!(response.status, Status::Success);

    let mut bad_payload = (good_crc ^ 1).to_le_bytes().to_vec();
    bad_payload.extend_from_slice(&(data.len() as u32).to_le_bytes());
    let verify_bad = Packet::new(Command::VerifyCRC, 0x300, bad_payload);
    let response = handle_packet(&verify_bad, &mut manager).unwrap();
    assert_eq!(response.status, Status::VerificationFailed);
}

#[test]
fn process_packet_returns_response_bytes() {
    let mut manager = ready_manager();
    let mut handler = ProtocolHandler::new();
    let request = Packet::new(Command::Status, 0, Vec::new());
    let request_bytes = request.to_bytes();

    // Feeding only part of the frame reports an incomplete packet.
    let result = handler.process_packet(&request_bytes[..5], &mut manager);
    assert!(result.is_err());

    // Feeding the rest yields one serialized, well-formed response.
    let response_bytes = handler
        .process_packet(&request_bytes[5..], &mut manager)
        .unwrap();
    let response = Response::from_bytes(&response_bytes).unwrap();
    assert_eq!(response.status, Status::Success);
    assert_eq!(response.data.len(), 1);
}

#[test]
fn process_packet_skips_fire_and_forget_frames() {
    let mut manager = ready_manager();
    let mut handler = ProtocolHandler::new();
    let stream = Packet::new(Command::StreamWrite, 0x40, vec![5, 6]);
    // A fire-and-forget frame alone produces no response bytes.
    assert!(handler
        .process_packet(&stream.to_bytes(), &mut manager)
        .is_err());
    // Followed by an acknowledged frame, the response is the latter's.
    let status = Packet::new(Command::Status, 0, Vec::new());
    let response_bytes = handler
        .process_packet(&status.to_bytes(), &mut manager)
        .unwrap();
    let response = Response::from_bytes(&response_bytes).unwrap();
    assert_eq!(response.status, Status::Success);
}
