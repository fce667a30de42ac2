//! Stream framer tests: resynchronization through noise, tolerance of
//! arbitrary chunking, recovery from corrupted frames, and the buffer cap.

use flash_protocol::{Command, Framer, Packet, FRAMER_BUFFER_CAP};

fn feed_in_chunks(framer: &mut Framer, stream: &[u8], chunk_size: usize) -> Vec<Packet> {
    let mut packets = Vec::new();
    let mut offset = 0;
    while offset < stream.len() {
        let end = usize::min(offset + chunk_size, stream.len());
        framer.push(&stream[offset..end]);
        while let Some(packet) = framer.next_packet() {
            packets.push(packet);
        }
        offset = end;
    }
    packets
}

#[test]
fn framer_resynchronizes_through_noise() {
    // Noise must not contain the two-byte magic; 0x00 and 0x11 never form it.
    let noise1: Vec<u8> = vec![0x00, 0x11, 0x22, 0x00, 0x11];
    let noise2: Vec<u8> = vec![0x42; 33];
    let frame1 = Packet::new(Command::Write, 0x100, vec![1, 2, 3]);
    let frame2 = Packet::new_with_sequence(Command::Read, 0x200, vec![0, 0, 1, 0], 9);

    let mut stream = Vec::new();
    stream.extend_from_slice(&noise1);
    stream.extend_from_slice(&frame1.to_bytes());
    stream.extend_from_slice(&noise2);
    stream.extend_from_slice(&frame2.to_bytes());

    for &chunk_size in &[1usize, 2, 3, 7, 16, 64, stream.len()] {
        let mut framer = Framer::new();
        let packets = feed_in_chunks(&mut framer, &stream, chunk_size);
        assert_eq!(packets.len(), 2, "chunk size {}", chunk_size);
        assert_eq!(packets[0], frame1);
        assert_eq!(packets[1], frame2);
    }
}

#[test]
fn framer_waits_for_complete_frame_without_consuming() {
    let frame = Packet::new(Command::Write, 0x40, vec![7; 100]);
    let bytes = frame.to_bytes();
    let mut framer = Framer::new();
    framer.push(&bytes[..bytes.len() - 1]);
    assert!(framer.next_packet().is_none());
    let buffered = framer.buffered();
    assert_eq!(buffered, bytes.len() - 1);
    framer.push(&bytes[bytes.len() - 1..]);
    assert_eq!(framer.next_packet().unwrap(), frame);
    assert_eq!(framer.buffered(), 0);
}

#[test]
fn framer_drops_corrupted_frame_and_recovers() {
    let good = Packet::new(Command::Write, 0x80, vec![1, 2, 3, 4]);
    let mut corrupted = good.to_bytes();
    let len = corrupted.len();
    corrupted[len - 1] ^= 0xFF;

    let mut stream = Vec::new();
    stream.extend_from_slice(&corrupted);
    stream.extend_from_slice(&good.to_bytes());

    let mut framer = Framer::new();
    let packets = feed_in_chunks(&mut framer, &stream, 5);
    assert_eq!(packets.len(), 1);
    assert_eq!(packets[0], good);
}

#[test]
fn framer_skips_spurious_magic_with_bad_command() {
    // A magic followed by a command byte outside the closed set must be
    // treated as noise, not stall the framer.
    let mut stream: Vec<u8> = vec![0xCD, 0xAB, 0x7F];
    stream.extend_from_slice(&[0u8; 10]);
    let frame = Packet::new(Command::Status, 0, Vec::new());
    stream.extend_from_slice(&frame.to_bytes());

    let mut framer = Framer::new();
    let packets = feed_in_chunks(&mut framer, &stream, 4);
    assert_eq!(packets, vec![frame]);
}

#[test]
fn framer_buffer_stays_bounded_without_magic() {
    let junk = [0x55u8; 997];
    let mut framer = Framer::new();
    for _ in 0..100 {
        framer.push(&junk);
        assert!(framer.next_packet().is_none());
        assert!(framer.buffered() <= FRAMER_BUFFER_CAP);
    }
    // Even a single oversized chunk stays within the cap.
    let big = vec![0x55u8; 3 * FRAMER_BUFFER_CAP];
    framer.push(&big);
    assert!(framer.buffered() <= FRAMER_BUFFER_CAP);
}

#[test]
fn framer_keeps_trailing_partial_magic() {
    let frame = Packet::new(Command::Status, 0, Vec::new());
    let mut framer = Framer::new();
    // Junk ending in the first magic byte: the framer must keep that byte so
    // a magic split across chunks still frames.
    let mut head: Vec<u8> = vec![0x01, 0x02, 0x03];
    head.push(0xCD);
    framer.push(&head);
    assert!(framer.next_packet().is_none());
    let bytes = frame.to_bytes();
    framer.push(&bytes[1..]);
    assert_eq!(framer.next_packet().unwrap(), frame);
}
