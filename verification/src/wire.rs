//! The binary wire format: `Packet` (host to device) and `Response` (device to
//! host), each a fixed little-endian layout closed by a CRC-32 over all
//! preceding fields.
//!
//! Layout of a packet frame:
//! `magic:u16 | command:u8 | length:u32 | address:u32 | sequence:u16 | data | crc:u32`
//!
//! Layout of a response frame:
//! `magic:u16 | status:u8 | length:u32 | data | crc:u32`
//!
//! Decoding is the exact inverse of encoding on well-formed values
//! (`lemma_packet_round_trip`, `lemma_response_round_trip`).

use vstd::prelude::*;
use crate::lebytes::{
    spec_le16, spec_from_le16, spec_le32, spec_from_le32, le16, from_le16, le32, from_le32,
    lemma_le16_round_trip, lemma_from_le16_round_trip, lemma_le32_round_trip,
};
use vstd::slice::{slice_subrange, slice_to_vec};
use crate::crc32::{spec_crc32, crc32};

verus! {

/// Sentinel that opens every packet frame.
pub const PACKET_MAGIC: u16 = 0xABCD;

/// Sentinel that opens every response frame; distinct from `PACKET_MAGIC` so
/// the two directions can be told apart on a shared buffer.
pub const RESPONSE_MAGIC: u16 = 0xDCBA;

/// Largest data payload a single frame may carry.
pub const MAX_PAYLOAD_SIZE: usize = 1024;

/// Smallest programmable unit of the flash device.
pub const FLASH_PAGE_SIZE: usize = 256;

/// Smallest erasable unit of the flash device.
pub const FLASH_SECTOR_SIZE: usize = 4096;

/// Total capacity of the flash device.
pub const FLASH_TOTAL_SIZE: usize = 16 * 1024 * 1024;

/// The first byte of the packet magic as it appears on the wire.
pub const PACKET_MAGIC_BYTE0: u8 = 0xCD;

/// The second byte of the packet magic as it appears on the wire.
pub const PACKET_MAGIC_BYTE1: u8 = 0xAB;

/// Bytes in a packet frame before the data payload.
pub const PACKET_HEADER_SIZE: usize = 13;

/// Bytes in the smallest possible packet frame (header plus CRC).
pub const PACKET_MIN_SIZE: usize = 17;

/// Bytes in a response frame before the data payload.
pub const RESPONSE_HEADER_SIZE: usize = 7;

/// Bytes in the smallest possible response frame (header plus CRC).
pub const RESPONSE_MIN_SIZE: usize = 11;

/// Command types for flash operations.
#[derive(Debug, Clone, Copy, PartialEq, Eq, Structural)]
pub enum Command {
    /// Get flash information (size, page size, and so on).
    Info,
    /// Erase a byte range of the flash.
    Erase,
    /// Write data to flash.
    Write,
    /// Read data from flash.
    Read,
    /// Verify data against flash contents.
    Verify,
    /// Batched write: no response is sent for it.
    BatchWrite,
    /// Request an acknowledgment after a batch.
    BatchAck,
    /// Streamed write: no response is sent for it.
    StreamWrite,
    /// Verify a range of flash against a CRC-32 supplied by the host.
    VerifyCRC,
    /// Read the flash status register.
    Status,
}

/// Status codes for responses.
#[derive(Debug, Clone, Copy, PartialEq, Eq, Structural)]
pub enum Status {
    /// Operation completed successfully.
    Success,
    /// The command byte was not recognized.
    InvalidCommand,
    /// Address or size out of bounds, or a malformed request payload.
    InvalidAddress,
    /// A flash operation failed.
    FlashError,
    /// A CRC mismatch.
    CrcError,
    /// A buffer overflowed.
    BufferOverflow,
    /// An operation timed out.
    Timeout,
    /// Data verification failed.
    VerificationFailed,
    /// Unknown error.
    Unknown,
}

/// The wire encoding of each command.
pub open spec fn spec_command_code(c: Command) -> u8 {
    match c {
        Command::Info => 0x01,
        Command::Erase => 0x02,
        Command::Write => 0x03,
        Command::Read => 0x04,
        Command::Verify => 0x05,
        Command::BatchWrite => 0x06,
        Command::BatchAck => 0x07,
        Command::StreamWrite => 0x08,
        Command::VerifyCRC => 0x09,
        Command::Status => 0x0A,
    }
}

/// Returns the wire encoding of a command.
pub fn command_code(c: Command) -> (r: u8)
    ensures
        r == spec_command_code(c),
{
    match c {
        Command::Info => 0x01,
        Command::Erase => 0x02,
        Command::Write => 0x03,
        Command::Read => 0x04,
        Command::Verify => 0x05,
        Command::BatchWrite => 0x06,
        Command::BatchAck => 0x07,
        Command::StreamWrite => 0x08,
        Command::VerifyCRC => 0x09,
        Command::Status => 0x0A,
    }
}

/// The command a wire byte stands for, if any.
pub open spec fn spec_command_from_code(b: u8) -> Option<Command> {
    if b == 0x01 {
        Some(Command::Info)
    } else if b == 0x02 {
        Some(Command::Erase)
    } else if b == 0x03 {
        Some(Command::Write)
    } else if b == 0x04 {
        Some(Command::Read)
    } else if b == 0x05 {
        Some(Command::Verify)
    } else if b == 0x06 {
        Some(Command::BatchWrite)
    } else if b == 0x07 {
        Some(Command::BatchAck)
    } else if b == 0x08 {
        Some(Command::StreamWrite)
    } else if b == 0x09 {
        Some(Command::VerifyCRC)
    } else if b == 0x0A {
        Some(Command::Status)
    } else {
        None
    }
}

/// Returns the command a wire byte stands for, if any.
pub fn command_from_code(b: u8) -> (r: Option<Command>)
    ensures
        r == spec_command_from_code(b),
{
    if b == 0x01 {
        Some(Command::Info)
    } else if b == 0x02 {
        Some(Command::Erase)
    } else if b == 0x03 {
        Some(Command::Write)
    } else if b == 0x04 {
        Some(Command::Read)
    } else if b == 0x05 {
        Some(Command::Verify)
    } else if b == 0x06 {
        Some(Command::BatchWrite)
    } else if b == 0x07 {
        Some(Command::BatchAck)
    } else if b == 0x08 {
        Some(Command::StreamWrite)
    } else if b == 0x09 {
        Some(Command::VerifyCRC)
    } else if b == 0x0A {
        Some(Command::Status)
    } else {
        None
    }
}

/// On the wire the packet magic is the byte `0xCD` followed by `0xAB`.
pub proof fn lemma_packet_magic_bytes()
    ensures
        spec_le16(PACKET_MAGIC) == seq![PACKET_MAGIC_BYTE0, PACKET_MAGIC_BYTE1],
{
    assert((0xABCDu16 & 0xff) as u8 == 0xCDu8) by (bit_vector);
    assert(((0xABCDu16 >> 8) & 0xff) as u8 == 0xABu8) by (bit_vector);
    assert(spec_le16(PACKET_MAGIC) =~= seq![PACKET_MAGIC_BYTE0, PACKET_MAGIC_BYTE1]);
}

/// Decoding a command code is the inverse of encoding it.
pub proof fn lemma_command_code_inverse(c: Command)
    ensures
        spec_command_from_code(spec_command_code(c)) == Some(c),
{
}

/// The wire encoding of each status.
pub open spec fn spec_status_code(s: Status) -> u8 {
    match s {
        Status::Success => 0x00,
        Status::InvalidCommand => 0x01,
        Status::InvalidAddress => 0x02,
        Status::FlashError => 0x03,
        Status::CrcError => 0x04,
        Status::BufferOverflow => 0x05,
        Status::Timeout => 0x06,
        Status::VerificationFailed => 0x07,
        Status::Unknown => 0xFF,
    }
}

/// Returns the wire encoding of a status.
pub fn status_code(s: Status) -> (r: u8)
    ensures
        r == spec_status_code(s),
{
    match s {
        Status::Success => 0x00,
        Status::InvalidCommand => 0x01,
        Status::InvalidAddress => 0x02,
        Status::FlashError => 0x03,
        Status::CrcError => 0x04,
        Status::BufferOverflow => 0x05,
        Status::Timeout => 0x06,
        Status::VerificationFailed => 0x07,
        Status::Unknown => 0xFF,
    }
}

/// The status a wire byte stands for; bytes outside the closed set decode to
/// `Unknown`, so decoding a status never fails.
pub open spec fn spec_status_from_code(b: u8) -> Status {
    if b == 0x00 {
        Status::Success
    } else if b == 0x01 {
        Status::InvalidCommand
    } else if b == 0x02 {
        Status::InvalidAddress
    } else if b == 0x03 {
        Status::FlashError
    } else if b == 0x04 {
        Status::CrcError
    } else if b == 0x05 {
        Status::BufferOverflow
    } else if b == 0x06 {
        Status::Timeout
    } else if b == 0x07 {
        Status::VerificationFailed
    } else {
        Status::Unknown
    }
}

/// Returns the status a wire byte stands for.
pub fn status_from_code(b: u8) -> (r: Status)
    ensures
        r == spec_status_from_code(b),
{
    if b == 0x00 {
        Status::Success
    } else if b == 0x01 {
        Status::InvalidCommand
    } else if b == 0x02 {
        Status::InvalidAddress
    } else if b == 0x03 {
        Status::FlashError
    } else if b == 0x04 {
        Status::CrcError
    } else if b == 0x05 {
        Status::BufferOverflow
    } else if b == 0x06 {
        Status::Timeout
    } else if b == 0x07 {
        Status::VerificationFailed
    } else {
        Status::Unknown
    }
}

/// Decoding a status code is the inverse of encoding it.
pub proof fn lemma_status_code_inverse(s: Status)
    ensures
        spec_status_from_code(spec_status_code(s)) == s,
{
}

/// Why decoding a frame was refused.
#[derive(Debug, Clone, Copy, PartialEq, Eq, Structural)]
pub enum DecodeError {
    /// Fewer bytes than the smallest possible frame.
    TooShort,
    /// The first two bytes are not the expected magic.
    BadMagic,
    /// The command byte is outside the closed set.
    InvalidCommand,
    /// The declared length exceeds the maximum payload size.
    LengthTooLarge,
    /// The declared length implies more bytes than were supplied.
    Incomplete,
    /// The stored checksum does not match the recomputed one.
    CrcMismatch,
}

/// The mathematical value of a `Packet`.
#[verifier::ext_equal]
pub struct PacketView {
    pub magic: u16,
    pub command: Command,
    pub length: u32,
    pub address: u32,
    pub sequence: u16,
    pub data: Seq<u8>,
    pub crc: u32,
}

impl PacketView {
    /// The bytes the checksum is computed over: every field before the CRC.
    pub open spec fn crc_input(self) -> Seq<u8> {
        spec_le16(self.magic) + seq![spec_command_code(self.command)]
            + spec_le32(self.length) + spec_le32(self.address)
            + spec_le16(self.sequence) + self.data
    }

    /// The checksum a well-formed packet must carry.
    pub open spec fn spec_crc(self) -> u32 {
        spec_crc32(self.crc_input())
    }

    /// Well-formedness: right magic, honest length, bounded payload, valid CRC.
    pub open spec fn wf(self) -> bool {
        &&& self.magic == PACKET_MAGIC
        &&& self.length == self.data.len()
        &&& self.data.len() <= MAX_PAYLOAD_SIZE
        &&& self.crc == self.spec_crc()
    }

    /// The frame this packet encodes to.
    pub open spec fn spec_bytes(self) -> Seq<u8> {
        self.crc_input() + spec_le32(self.crc)
    }
}

/// A command packet.
#[derive(Debug, Clone, PartialEq)]
pub struct Packet {
    /// Magic number for synchronization.
    pub magic: u16,
    /// Command type.
    pub command: Command,
    /// Data length.
    pub length: u32,
    /// Flash address for read, write and erase operations.
    pub address: u32,
    /// Sequence number for packet ordering.
    pub sequence: u16,
    /// Data payload.
    pub data: Vec<u8>,
    /// CRC-32 checksum over all preceding fields.
    pub crc: u32,
}

impl View for Packet {
    type V = PacketView;

    open spec fn view(&self) -> PacketView {
        PacketView {
            magic: self.magic,
            command: self.command,
            length: self.length,
            address: self.address,
            sequence: self.sequence,
            data: self.data@,
            crc: self.crc,
        }
    }
}

/// The packet a frame decodes to, if any: the frame must be long enough, carry
/// the packet magic, a known command, a bounded and fully supplied length, and
/// a checksum that matches the recomputed one.
pub open spec fn spec_packet_from_bytes(b: Seq<u8>) -> Option<PacketView> {
    if b.len() < PACKET_MIN_SIZE {
        None
    } else if spec_from_le16(b.subrange(0, 2)) != PACKET_MAGIC {
        None
    } else if spec_command_from_code(b[2]) is None {
        None
    } else {
        let length = spec_from_le32(b.subrange(3, 7));
        if length > MAX_PAYLOAD_SIZE {
            None
        } else if b.len() < PACKET_MIN_SIZE + length {
            None
        } else {
            let pv = PacketView {
                magic: spec_from_le16(b.subrange(0, 2)),
                command: spec_command_from_code(b[2])->Some_0,
                length,
                address: spec_from_le32(b.subrange(7, 11)),
                sequence: spec_from_le16(b.subrange(11, 13)),
                data: b.subrange(13, 13 + length),
                crc: spec_from_le32(b.subrange(13 + length, 17 + length)),
            };
            if pv.crc == pv.spec_crc() {
                Some(pv)
            } else {
                None
            }
        }
    }
}

impl Packet {
    /// Creates a packet with sequence number zero and a valid checksum.
    pub fn new(command: Command, address: u32, data: Vec<u8>) -> (r: Packet)
        requires
            data@.len() <= MAX_PAYLOAD_SIZE,
        ensures
            r@.wf(),
            r.command == command,
            r.address == address,
            r.sequence == 0,
            r.data@ == data@,
    {
        Self::new_with_sequence(command, address, data, 0)
    }

    /// Creates a packet with the given sequence number and a valid checksum.
    pub fn new_with_sequence(command: Command, address: u32, data: Vec<u8>, sequence: u16) -> (r:
        Packet)
        requires
            data@.len() <= MAX_PAYLOAD_SIZE,
        ensures
            r@.wf(),
            r.command == command,
            r.address == address,
            r.sequence == sequence,
            r.data@ == data@,
    {
        let mut packet = Packet {
            magic: PACKET_MAGIC,
            command,
            length: data.len() as u32,
            address,
            sequence,
            data,
            crc: 0,
        };
        let crc = packet.calculate_crc();
        packet.crc = crc;
        packet
    }

    /// Computes the CRC-32 over every field before the checksum.
    pub fn calculate_crc(&self) -> (r: u32)
        ensures
            r == self@.spec_crc(),
    {
        let mut bytes: Vec<u8> = Vec::new();
        let mut t16 = le16(self.magic);
        bytes.append(&mut t16);
        bytes.push(command_code(self.command));
        let mut t32 = le32(self.length);
        bytes.append(&mut t32);
        let mut a32 = le32(self.address);
        bytes.append(&mut a32);
        let mut s16 = le16(self.sequence);
        bytes.append(&mut s16);
        bytes.extend_from_slice(self.data.as_slice());
        proof {
            assert(bytes@ =~= self@.crc_input());
        }
        crc32(bytes.as_slice())
    }

    /// Reports whether the stored checksum matches the recomputed one.
    pub fn verify_crc(&self) -> (r: bool)
        ensures
            r == (self.crc == self@.spec_crc()),
    {
        let computed = self.calculate_crc();
        self.crc == computed
    }

    /// Serializes the packet into its frame bytes.
    pub fn to_bytes(&self) -> (r: Vec<u8>)
        ensures
            r@ == self@.spec_bytes(),
            r@.len() == PACKET_MIN_SIZE + self.data@.len(),
    {
        let mut bytes: Vec<u8> = Vec::new();
        let mut t16 = le16(self.magic);
        bytes.append(&mut t16);
        bytes.push(command_code(self.command));
        let mut t32 = le32(self.length);
        bytes.append(&mut t32);
        let mut a32 = le32(self.address);
        bytes.append(&mut a32);
        let mut s16 = le16(self.sequence);
        bytes.append(&mut s16);
        bytes.extend_from_slice(self.data.as_slice());
        let mut c32 = le32(self.crc);
        bytes.append(&mut c32);
        proof {
            assert(bytes@ =~= self@.spec_bytes());
        }
        bytes
    }

    /// Deserializes a packet from frame bytes, validating the checksum; the
    /// result is exactly what `spec_packet_from_bytes` says, and each error
    /// names the first check that failed.
    pub fn from_bytes(bytes: &[u8]) -> (r: Result<Packet, DecodeError>)
        ensures
            (r matches Ok(p) ==> Some(p@) == spec_packet_from_bytes(bytes@) && p@.wf()),
            r is Err <==> spec_packet_from_bytes(bytes@) is None,
            r == Err::<Packet, DecodeError>(DecodeError::TooShort) <==> bytes@.len()
                < PACKET_MIN_SIZE,
            r == Err::<Packet, DecodeError>(DecodeError::BadMagic) <==> (bytes@.len()
                >= PACKET_MIN_SIZE && spec_from_le16(bytes@.subrange(0, 2))
                != PACKET_MAGIC),
    {
        if bytes.len() < PACKET_MIN_SIZE {
            return Err(DecodeError::TooShort);
        }
        let magic = from_le16(slice_subrange(bytes, 0, 2));
        if magic != PACKET_MAGIC {
            return Err(DecodeError::BadMagic);
        }
        let command = match command_from_code(bytes[2]) {
            Some(c) => c,
            None => {
                return Err(DecodeError::InvalidCommand);
            },
        };
        let length = from_le32(slice_subrange(bytes, 3, 7));
        if length as usize > MAX_PAYLOAD_SIZE {
            return Err(DecodeError::LengthTooLarge);
        }
        let address = from_le32(slice_subrange(bytes, 7, 11));
        let sequence = from_le16(slice_subrange(bytes, 11, 13));
        let total = PACKET_MIN_SIZE + length as usize;
        if bytes.len() < total {
            return Err(DecodeError::Incomplete);
        }
        let data = slice_to_vec(slice_subrange(bytes, 13, 13 + length as usize));
        let crc = from_le32(slice_subrange(bytes, 13 + length as usize, total));
        let packet = Packet { magic, command, length, address, sequence, data, crc };
        if !packet.verify_crc() {
            return Err(DecodeError::CrcMismatch);
        }
        Ok(packet)
    }
}

/// Corruption sensitivity at the frame head: a buffer whose first two bytes
/// are anything but the packet magic's encoding — in particular, a frame
/// with any bit of its magic flipped — never decodes.
pub proof fn lemma_packet_bad_magic_rejected(b: Seq<u8>)
    requires
        b.len() >= 2,
        b.subrange(0, 2) != spec_le16(PACKET_MAGIC),
    ensures
        spec_packet_from_bytes(b) is None,
{
    if b.len() >= PACKET_MIN_SIZE {
        let s = b.subrange(0, 2);
        if spec_from_le16(s) == PACKET_MAGIC {
            lemma_from_le16_round_trip(s);
            assert(s =~= spec_le16(PACKET_MAGIC));
        }
    }
}

/// Decoding a well-formed packet's frame yields exactly that packet.
pub proof fn lemma_packet_round_trip(v: PacketView)
    requires
        v.wf(),
    ensures
        spec_packet_from_bytes(v.spec_bytes()) == Some(v),
{
    lemma_command_code_inverse(v.command);
    lemma_le16_round_trip(v.magic);
    lemma_le16_round_trip(v.sequence);
    lemma_le32_round_trip(v.length);
    lemma_le32_round_trip(v.address);
    lemma_le32_round_trip(v.crc);
    let b = v.spec_bytes();
    assert(b.len() == PACKET_MIN_SIZE + v.data.len());
    assert(b.subrange(0, 2) =~= spec_le16(v.magic));
    assert(b[2] == spec_command_code(v.command));
    assert(b.subrange(3, 7) =~= spec_le32(v.length));
    assert(b.subrange(7, 11) =~= spec_le32(v.address));
    assert(b.subrange(11, 13) =~= spec_le16(v.sequence));
    let length = spec_from_le32(b.subrange(3, 7));
    assert(length == v.length);
    assert(b.subrange(13, 13 + length) =~= v.data);
    assert(b.subrange(13 + length, 17 + length) =~= spec_le32(v.crc));
    let pv = spec_packet_from_bytes(b)->Some_0;
    assert(spec_packet_from_bytes(b) is Some && pv =~= v) by {
        let cand = PacketView {
            magic: spec_from_le16(b.subrange(0, 2)),
            command: spec_command_from_code(b[2])->Some_0,
            length,
            address: spec_from_le32(b.subrange(7, 11)),
            sequence: spec_from_le16(b.subrange(11, 13)),
            data: b.subrange(13, 13 + length),
            crc: spec_from_le32(b.subrange(13 + length, 17 + length)),
        };
        assert(cand =~= v);
        assert(cand.spec_crc() == v.spec_crc());
    }
}

/// The mathematical value of a `Response`.
#[verifier::ext_equal]
pub struct ResponseView {
    pub magic: u16,
    pub status: Status,
    pub length: u32,
    pub data: Seq<u8>,
    pub crc: u32,
}

impl ResponseView {
    /// The bytes the checksum is computed over: every field before the CRC.
    pub open spec fn crc_input(self) -> Seq<u8> {
        spec_le16(self.magic) + seq![spec_status_code(self.status)]
            + spec_le32(self.length) + self.data
    }

    /// The checksum a well-formed response must carry.
    pub open spec fn spec_crc(self) -> u32 {
        spec_crc32(self.crc_input())
    }

    /// Well-formedness: right magic, honest length, bounded payload, valid CRC.
    pub open spec fn wf(self) -> bool {
        &&& self.magic == RESPONSE_MAGIC
        &&& self.length == self.data.len()
        &&& self.data.len() <= MAX_PAYLOAD_SIZE
        &&& self.crc == self.spec_crc()
    }

    /// The frame this response encodes to.
    pub open spec fn spec_bytes(self) -> Seq<u8> {
        self.crc_input() + spec_le32(self.crc)
    }
}

/// A response packet.
#[derive(Debug, Clone, PartialEq)]
pub struct Response {
    /// Magic number for synchronization.
    pub magic: u16,
    /// Status code.
    pub status: Status,
    /// Response data length.
    pub length: u32,
    /// Response data.
    pub data: Vec<u8>,
    /// CRC-32 checksum over all preceding fields.
    pub crc: u32,
}

impl View for Response {
    type V = ResponseView;

    open spec fn view(&self) -> ResponseView {
        ResponseView {
            magic: self.magic,
            status: self.status,
            length: self.length,
            data: self.data@,
            crc: self.crc,
        }
    }
}

/// The response a frame decodes to, if any. Any status byte is accepted
/// (unlisted bytes decode to `Unknown`); everything else mirrors packets.
pub open spec fn spec_response_from_bytes(b: Seq<u8>) -> Option<ResponseView> {
    if b.len() < RESPONSE_MIN_SIZE {
        None
    } else if spec_from_le16(b.subrange(0, 2)) != RESPONSE_MAGIC {
        None
    } else {
        let length = spec_from_le32(b.subrange(3, 7));
        if length > MAX_PAYLOAD_SIZE {
            None
        } else if b.len() < RESPONSE_MIN_SIZE + length {
            None
        } else {
            let rv = ResponseView {
                magic: spec_from_le16(b.subrange(0, 2)),
                status: spec_status_from_code(b[2]),
                length,
                data: b.subrange(7, 7 + length),
                crc: spec_from_le32(b.subrange(7 + length, 11 + length)),
            };
            if rv.crc == rv.spec_crc() {
                Some(rv)
            } else {
                None
            }
        }
    }
}

impl Response {
    /// Creates a response with a valid checksum.
    pub fn new(status: Status, data: Vec<u8>) -> (r: Response)
        requires
            data@.len() <= MAX_PAYLOAD_SIZE,
        ensures
            r@.wf(),
            r.status == status,
            r.data@ == data@,
    {
        let mut response = Response {
            magic: RESPONSE_MAGIC,
            status,
            length: data.len() as u32,
            data,
            crc: 0,
        };
        let crc = response.calculate_crc();
        response.crc = crc;
        response
    }

    /// Computes the CRC-32 over every field before the checksum.
    pub fn calculate_crc(&self) -> (r: u32)
        ensures
            r == self@.spec_crc(),
    {
        let mut bytes: Vec<u8> = Vec::new();
        let mut t16 = le16(self.magic);
        bytes.append(&mut t16);
        bytes.push(status_code(self.status));
        let mut t32 = le32(self.length);
        bytes.append(&mut t32);
        bytes.extend_from_slice(self.data.as_slice());
        proof {
            assert(bytes@ =~= self@.crc_input());
        }
        crc32(bytes.as_slice())
    }

    /// Reports whether the stored checksum matches the recomputed one.
    pub fn verify_crc(&self) -> (r: bool)
        ensures
            r == (self.crc == self@.spec_crc()),
    {
        let computed = self.calculate_crc();
        self.crc == computed
    }

    /// Serializes the response into its frame bytes.
    pub fn to_bytes(&self) -> (r: Vec<u8>)
        ensures
            r@ == self@.spec_bytes(),
            r@.len() == RESPONSE_MIN_SIZE + self.data@.len(),
    {
        let mut bytes: Vec<u8> = Vec::new();
        let mut t16 = le16(self.magic);
        bytes.append(&mut t16);
        bytes.push(status_code(self.status));
        let mut t32 = le32(self.length);
        bytes.append(&mut t32);
        bytes.extend_from_slice(self.data.as_slice());
        let mut c32 = le32(self.crc);
        bytes.append(&mut c32);
        proof {
            assert(bytes@ =~= self@.spec_bytes());
        }
        bytes
    }

    /// Deserializes a response from frame bytes, validating the checksum; the
    /// result is exactly what `spec_response_from_bytes` says.
    pub fn from_bytes(bytes: &[u8]) -> (r: Result<Response, DecodeError>)
        ensures
            (r matches Ok(p) ==> Some(p@) == spec_response_from_bytes(bytes@) && p@.wf()),
            r is Err <==> spec_response_from_bytes(bytes@) is None,
            r == Err::<Response, DecodeError>(DecodeError::TooShort) <==> bytes@.len()
                < RESPONSE_MIN_SIZE,
    {
        if bytes.len() < RESPONSE_MIN_SIZE {
            return Err(DecodeError::TooShort);
        }
        let magic = from_le16(slice_subrange(bytes, 0, 2));
        if magic != RESPONSE_MAGIC {
            return Err(DecodeError::BadMagic);
        }
        let status = status_from_code(bytes[2]);
        let length = from_le32(slice_subrange(bytes, 3, 7));
        if length as usize > MAX_PAYLOAD_SIZE {
            return Err(DecodeError::LengthTooLarge);
        }
        let total = RESPONSE_MIN_SIZE + length as usize;
        if bytes.len() < total {
            return Err(DecodeError::Incomplete);
        }
        let data = slice_to_vec(slice_subrange(bytes, 7, 7 + length as usize));
        let crc = from_le32(slice_subrange(bytes, 7 + length as usize, total));
        let response = Response { magic, status, length, data, crc };
        if !response.verify_crc() {
            return Err(DecodeError::CrcMismatch);
        }
        Ok(response)
    }
}

/// Decoding a well-formed response's frame yields exactly that response.
pub proof fn lemma_response_round_trip(v: ResponseView)
    requires
        v.wf(),
    ensures
        spec_response_from_bytes(v.spec_bytes()) == Some(v),
{
    lemma_status_code_inverse(v.status);
    lemma_le16_round_trip(v.magic);
    lemma_le32_round_trip(v.length);
    lemma_le32_round_trip(v.crc);
    let b = v.spec_bytes();
    assert(b.len() == RESPONSE_MIN_SIZE + v.data.len());
    assert(b.subrange(0, 2) =~= spec_le16(v.magic));
    assert(b[2] == spec_status_code(v.status));
    assert(b.subrange(3, 7) =~= spec_le32(v.length));
    let length = spec_from_le32(b.subrange(3, 7));
    assert(length == v.length);
    assert(b.subrange(7, 7 + length) =~= v.data);
    assert(b.subrange(7 + length, 11 + length) =~= spec_le32(v.crc));
    let rv = spec_response_from_bytes(b)->Some_0;
    assert(spec_response_from_bytes(b) is Some && rv =~= v) by {
        let cand = ResponseView {
            magic: spec_from_le16(b.subrange(0, 2)),
            status: spec_status_from_code(b[2]),
            length,
            data: b.subrange(7, 7 + length),
            crc: spec_from_le32(b.subrange(7 + length, 11 + length)),
        };
        assert(cand =~= v);
        assert(cand.spec_crc() == v.spec_crc());
    }
}

} // verus!
