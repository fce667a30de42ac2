//! The host transport layer: turns an application-level request into a
//! sequence of packets over a `PacketChannel`, with three escalating
//! verification strategies — direct readback comparison, whole-buffer
//! content-hash comparison, and block-level checksum verification that never
//! transfers the flash contents back.
//!
//! The channel is a port: what the device answers is its own affair, so the
//! functions here promise exactly what holds whatever came back, and the
//! pure helpers they decide with carry exact contracts.

use vstd::prelude::*;
use vstd::slice::{slice_subrange, slice_to_vec};
use crate::crc32::{crc32, spec_crc32};
use crate::lebytes::le32;
use crate::wire::{Command, Packet, Response, Status, MAX_PAYLOAD_SIZE};
use sha2::Digest;

verus! {

/// Chunk size for readback operations, matching the device's single-read cap.
pub const MAX_READ_SIZE: usize = 256;

/// Block size for block-level checksum verification; independent of the
/// packet payload limit.
pub const VERIFY_BLOCK_SIZE: usize = 64 * 1024;

/// A transport failure: the channel could not deliver or answer.
#[derive(Debug, Clone, Copy, PartialEq, Eq, Structural)]
pub struct ChannelError;

/// Errors a host-side command can end with.
#[derive(Debug, Clone, Copy, PartialEq, Eq, Structural)]
pub enum HostError {
    /// The channel failed to deliver a packet or produce a response.
    Transport,
    /// The device answered with a non-success status.
    Device(Status),
    /// The device's response payload was too short to carry its answer.
    InvalidResponse,
    /// Readback comparison found a difference: the failing chunk's address,
    /// the absolute offset of the first differing byte, and the expected and
    /// actual byte values there.
    VerifyFailed { address: u32, offset: u32, expected: u8, actual: u8 },
    /// The content hash of the readback differs from the source's.
    HashMismatch,
    /// Block-level checksum verification failed for the block at this address.
    BlockCrcMismatch(u32),
}

/// A duplex packet link to the device: send one packet and await its
/// response, or send one packet without awaiting anything.
pub trait PacketChannel {
    /// Sends `packet` and waits for the device's response. A delivered
    /// response is a well-formed frame; its status and payload are the
    /// device's to choose.
    fn transact(&mut self, packet: &Packet) -> (r: Result<Response, ChannelError>)
        requires
            packet@.wf(),
        ensures
            r matches Ok(resp) ==> resp@.wf(),
    ;

    /// Sends `packet` without awaiting a response (fire-and-forget).
    fn send_packet(&mut self, packet: &Packet) -> (r: Result<(), ChannelError>)
        requires
            packet@.wf(),
    ;
}

/// The errors any acknowledged exchange can produce: the channel failed to
/// deliver, or the device answered with a non-success status.
pub open spec fn spec_is_transact_error(e: HostError) -> bool {
    ||| e == HostError::Transport
    ||| (e matches HostError::Device(s) && s != Status::Success)
}

/// Turns a response into a result: success passes the response through, any
/// other status is the error it names.
pub fn response_to_result(response: Response) -> (r: Result<Response, HostError>)
    ensures
        response.status == Status::Success <==> (r matches Ok(resp) && resp == response),
        response.status != Status::Success <==> r == Err::<Response, HostError>(
            HostError::Device(response.status),
        ),
{
    if response.status == Status::Success {
        Ok(response)
    } else {
        Err(HostError::Device(response.status))
    }
}

/// The SHA-256 digest of a byte sequence; it depends on the bytes alone.
pub uninterp spec fn sha256_of(data: Seq<u8>) -> Seq<u8>;

/// Relies on sha2's `Sha256` (through the `Digest` trait): a 32-byte digest
/// that is a function of the input bytes alone.
#[verifier::external_body]
fn sha256_digest(data: &[u8]) -> (r: Vec<u8>)
    ensures
        r@ == sha256_of(data@),
        r@.len() == 32,
{
    let mut hasher = sha2::Sha256::new();
    hasher.update(data);
    hasher.finalize().to_vec()
}

/// The 32-byte content hash used by hash verification; compute it once over
/// a source buffer and compare it against the hash of a later readback.
pub fn content_hash(data: &[u8]) -> (r: Vec<u8>)
    ensures
        r@ == sha256_of(data@),
        r@.len() == 32,
{
    sha256_digest(data)
}

/// Verification equivalence: against the bytes actually stored, the three
/// strategies agree on success — equal bytes pass direct comparison,
/// content-hash comparison and checksum comparison alike — and a buffer
/// differing at any position fails the direct comparison.
pub proof fn lemma_verification_strategies_agree(source: Seq<u8>, stored: Seq<u8>)
    ensures
        source == stored ==> sha256_of(source) == sha256_of(stored) && spec_crc32(source)
            == spec_crc32(stored),
        (exists|i: int| 0 <= i < source.len() && i < stored.len() && source[i] != stored[i])
            ==> source != stored,
{
    if exists|i: int| 0 <= i < source.len() && i < stored.len() && source[i] != stored[i] {
        let i = choose|i: int| 0 <= i < source.len() && i < stored.len() && source[i]
            != stored[i];
        assert(source[i] != stored[i]);
    }
}

/// The host-side command set over a packet channel.
pub struct FlashCommands<C: PacketChannel> {
    connection: C,
}

impl<C: PacketChannel> FlashCommands<C> {
    /// Creates the command set over the given channel.
    pub fn new(connection: C) -> (r: FlashCommands<C>) {
        FlashCommands { connection }
    }

    /// Sends one packet and turns the reply into a result: a channel failure
    /// is `Transport`, a non-success status is `Device`, and a returned
    /// response is well-formed with status `Success`.
    fn send_command(&mut self, packet: &Packet) -> (r: Result<Response, HostError>)
        requires
            packet@.wf(),
        ensures
            r matches Ok(resp) ==> resp@.wf() && resp.status == Status::Success,
            r matches Err(e) ==> spec_is_transact_error(e),
    {
        let response = match self.connection.transact(packet) {
            Ok(resp) => resp,
            Err(_) => {
                return Err(HostError::Transport);
            },
        };
        response_to_result(response)
    }

    /// Requests the device information and decodes its 16-byte payload.
    pub fn get_info(&mut self) -> (r: Result<crate::driver::FlashInfo, HostError>)
        ensures
            r matches Err(e) ==> spec_is_transact_error(e) || e == HostError::InvalidResponse,
    {
        let packet = Packet::new(Command::Info, 0, Vec::new());
        let response = match self.send_command(&packet) {
            Ok(resp) => resp,
            Err(e) => {
                return Err(e);
            },
        };
        match crate::dispatch::decode_flash_info(&response.data) {
            Some(info) => Ok(info),
            None => Err(HostError::InvalidResponse),
        }
    }

    /// Asks the device to erase `size` bytes starting at `address`; the size
    /// travels as the packet's four-byte payload.
    pub fn erase(&mut self, address: u32, size: u32) -> (r: Result<(), HostError>)
        ensures
            r matches Err(e) ==> spec_is_transact_error(e),
    {
        let data = le32(size);
        let packet = Packet::new(Command::Erase, address, data);
        match self.send_command(&packet) {
            Ok(_) => Ok(()),
            Err(e) => Err(e),
        }
    }

    /// Reads the device's status register byte.
    pub fn read_status(&mut self) -> (r: Result<u8, HostError>)
        ensures
            r matches Err(e) ==> spec_is_transact_error(e) || e == HostError::InvalidResponse,
    {
        let packet = Packet::new(Command::Status, 0, Vec::new());
        let response = match self.send_command(&packet) {
            Ok(resp) => resp,
            Err(e) => {
                return Err(e);
            },
        };
        if response.data.len() == 0 {
            return Err(HostError::InvalidResponse);
        }
        Ok(response.data[0])
    }

    /// Writes `data` at `address` in reliable mode: one payload-sized packet
    /// sent, one response awaited, before the next chunk, each packet with a
    /// strictly increasing (wrapping) sequence number; the first failing
    /// chunk aborts the transfer. An empty write succeeds without sending
    /// anything.
    pub fn write(&mut self, address: u32, data: &[u8]) -> (r: Result<(), HostError>)
        requires
            address + data@.len() <= u32::MAX,
        ensures
            data@.len() == 0 ==> r is Ok,
            r matches Err(e) ==> spec_is_transact_error(e),
    {
        let mut offset: usize = 0;
        let mut current_address = address;
        let mut sequence: u16 = 1;
        while offset < data.len()
            invariant
                offset <= data@.len(),
                current_address == address + offset,
                address + data@.len() <= u32::MAX,
            decreases data@.len() - offset,
        {
            let chunk_size = if data.len() - offset < MAX_PAYLOAD_SIZE {
                data.len() - offset
            } else {
                MAX_PAYLOAD_SIZE
            };
            let chunk = slice_to_vec(slice_subrange(data, offset, offset + chunk_size));
            let packet = Packet::new_with_sequence(
                Command::Write,
                current_address,
                chunk,
                sequence,
            );
            match self.send_command(&packet) {
                Ok(_) => {},
                Err(e) => {
                    return Err(e);
                },
            }
            current_address = current_address + chunk_size as u32;
            offset = offset + chunk_size;
            sequence = if sequence == u16::MAX {
                0
            } else {
                sequence + 1
            };
        }
        Ok(())
    }

    /// Writes in streaming mode; reports whether the final confirmation was
    /// acknowledged.
    pub fn write_with_progress(&mut self, address: u32, data: &[u8]) -> (r: Result<
        bool,
        HostError,
    >)
        requires
            address + data@.len() <= u32::MAX,
        ensures
            data@.len() == 0 ==> r is Ok,
            r is Err ==> r == Err::<bool, HostError>(HostError::Transport),
    {
        self.stream_write_with_progress(address, data)
    }

    /// Writes `data` at `address` with one acknowledged, sequence-numbered
    /// packet per chunk: the batch variant of the reliable write.
    pub fn batch_write_with_progress(&mut self, address: u32, data: &[u8]) -> (r: Result<
        (),
        HostError,
    >)
        requires
            address + data@.len() <= u32::MAX,
        ensures
            data@.len() == 0 ==> r is Ok,
            r matches Err(e) ==> spec_is_transact_error(e),
    {
        self.write(address, data)
    }

    /// Reads `size` bytes from `address` in chunks of `chunk_size`, with
    /// increasing sequence numbers; a response with the wrong payload length
    /// is refused, so a returned buffer always has exactly `size` bytes.
    fn read_chunked(&mut self, address: u32, size: u32, chunk_size: usize) -> (r: Result<
        Vec<u8>,
        HostError,
    >)
        requires
            address + size <= u32::MAX,
            0 < chunk_size <= MAX_PAYLOAD_SIZE,
        ensures
            r matches Ok(v) ==> v@.len() == size,
            size == 0 ==> r is Ok,
            r matches Err(e) ==> spec_is_transact_error(e) || e == HostError::InvalidResponse,
    {
        let mut result: Vec<u8> = Vec::new();
        let end = address + size;
        let mut current_address = address;
        let mut sequence: u16 = 1;
        while current_address < end
            invariant
                address <= current_address <= end,
                end == address + size,
                result@.len() == current_address - address,
                0 < chunk_size <= MAX_PAYLOAD_SIZE,
            decreases end - current_address,
        {
            let remaining = end - current_address;
            let this_chunk: u32 = if remaining < chunk_size as u32 {
                remaining
            } else {
                chunk_size as u32
            };
            let request = le32(this_chunk);
            let packet = Packet::new_with_sequence(
                Command::Read,
                current_address,
                request,
                sequence,
            );
            let mut response = match self.send_command(&packet) {
                Ok(resp) => resp,
                Err(e) => {
                    return Err(e);
                },
            };
            if response.data.len() != this_chunk as usize {
                return Err(HostError::InvalidResponse);
            }
            result.append(&mut response.data);
            current_address = current_address + this_chunk;
            sequence = if sequence == u16::MAX {
                0
            } else {
                sequence + 1
            };
        }
        Ok(result)
    }

    /// Reads `size` bytes starting at `address` in payload-sized chunks; the
    /// returned buffer has exactly `size` bytes.
    pub fn read(&mut self, address: u32, size: u32) -> (r: Result<Vec<u8>, HostError>)
        requires
            address + size <= u32::MAX,
        ensures
            r matches Ok(v) ==> v@.len() == size,
            size == 0 ==> r is Ok,
            r matches Err(e) ==> spec_is_transact_error(e) || e == HostError::InvalidResponse,
    {
        self.read_chunked(address, size, MAX_PAYLOAD_SIZE)
    }

    /// Reads `size` bytes starting at `address` in device-read-sized chunks;
    /// the returned buffer has exactly `size` bytes.
    pub fn read_with_progress(&mut self, address: u32, size: u32) -> (r: Result<Vec<u8>, HostError>)
        requires
            address + size <= u32::MAX,
        ensures
            r matches Ok(v) ==> v@.len() == size,
            size == 0 ==> r is Ok,
            r matches Err(e) ==> spec_is_transact_error(e) || e == HostError::InvalidResponse,
    {
        self.read_chunked(address, size, MAX_READ_SIZE)
    }

    /// Asks the device to compare `expected_data` against its own contents,
    /// one payload-sized chunk at a time; the first non-success reply aborts.
    pub fn verify(&mut self, address: u32, expected_data: &[u8]) -> (r: Result<(), HostError>)
        requires
            address + expected_data@.len() <= u32::MAX,
        ensures
            expected_data@.len() == 0 ==> r is Ok,
            r matches Err(e) ==> spec_is_transact_error(e),
    {
        let mut offset: usize = 0;
        let mut current_address = address;
        while offset < expected_data.len()
            invariant
                offset <= expected_data@.len(),
                current_address == address + offset,
                address + expected_data@.len() <= u32::MAX,
            decreases expected_data@.len() - offset,
        {
            let chunk_size = if expected_data.len() - offset < MAX_PAYLOAD_SIZE {
                expected_data.len() - offset
            } else {
                MAX_PAYLOAD_SIZE
            };
            let chunk = slice_to_vec(slice_subrange(expected_data, offset, offset + chunk_size));
            let packet = Packet::new(Command::Verify, current_address, chunk);
            match self.send_command(&packet) {
                Ok(_) => {},
                Err(e) => {
                    return Err(e);
                },
            }
            current_address = current_address + chunk_size as u32;
            offset = offset + chunk_size;
        }
        Ok(())
    }

    /// Device-side verification of `expected_data`, chunk by chunk.
    pub fn verify_with_progress(&mut self, address: u32, expected_data: &[u8]) -> (r: Result<
        (),
        HostError,
    >)
        requires
            address + expected_data@.len() <= u32::MAX,
        ensures
            expected_data@.len() == 0 ==> r is Ok,
            r matches Err(e) ==> spec_is_transact_error(e),
    {
        self.verify(address, expected_data)
    }

    /// Writes `data` at `address` in streaming mode: payload-sized chunks
    /// sent in small batches without per-packet acknowledgment, then one
    /// acknowledged command to confirm the receiver drained its queue.
    /// `Ok(true)` means the confirmation was acknowledged; `Ok(false)` means
    /// every data packet was handed to the transport but the confirmation
    /// failed, which the caller should treat as a warning, the data being
    /// presumed delivered.
    pub fn stream_write_with_progress(&mut self, address: u32, data: &[u8]) -> (r: Result<
        bool,
        HostError,
    >)
        requires
            address + data@.len() <= u32::MAX,
        ensures
            data@.len() == 0 ==> r is Ok,
            r is Err ==> r == Err::<bool, HostError>(HostError::Transport),
    {
        let mut offset: usize = 0;
        let mut current_address = address;
        let mut sequence: u16 = 1;
        while offset < data.len()
            invariant
                offset <= data@.len(),
                current_address == address + offset,
                address + data@.len() <= u32::MAX,
            decreases data@.len() - offset,
        {
            let chunk_size = if data.len() - offset < MAX_PAYLOAD_SIZE {
                data.len() - offset
            } else {
                MAX_PAYLOAD_SIZE
            };
            let chunk = slice_to_vec(slice_subrange(data, offset, offset + chunk_size));
            let packet = Packet::new_with_sequence(
                Command::StreamWrite,
                current_address,
                chunk,
                sequence,
            );
            match self.connection.send_packet(&packet) {
                Ok(_) => {},
                Err(_) => {
                    return Err(HostError::Transport);
                },
            }
            current_address = current_address + chunk_size as u32;
            offset = offset + chunk_size;
            sequence = if sequence == u16::MAX {
                0
            } else {
                sequence + 1
            };
        }
        let confirm = Packet::new_with_sequence(Command::Status, 0, Vec::new(), sequence);
        match self.send_command(&confirm) {
            Ok(_) => Ok(true),
            Err(_) => Ok(false),
        }
    }

    /// Direct readback verification: reads the written range back chunk by
    /// chunk and compares it byte for byte against `expected_data`; the
    /// first difference fails with the chunk's address, the absolute offset
    /// of the differing byte, and the expected and actual values there. An
    /// empty range verifies trivially.
    pub fn verify_write(&mut self, address: u32, expected_data: &[u8]) -> (r: Result<
        (),
        HostError,
    >)
        requires
            address + expected_data@.len() <= u32::MAX,
        ensures
            expected_data@.len() == 0 ==> r is Ok,
            r matches Err(e) ==> (spec_is_transact_error(e) || e == HostError::InvalidResponse || (
            e matches HostError::VerifyFailed { address: fa, offset: fo, expected: fe, actual: fc }
                && address <= fa < address + expected_data@.len() && fo < expected_data@.len()
                && fe == expected_data@[fo as int])),
    {
        let mut offset: usize = 0;
        let mut current_address = address;
        let mut sequence: u16 = 1;
        while offset < expected_data.len()
            invariant
                offset <= expected_data@.len(),
                current_address == address + offset,
                address + expected_data@.len() <= u32::MAX,
            decreases expected_data@.len() - offset,
        {
            let chunk_size = if expected_data.len() - offset < MAX_READ_SIZE {
                expected_data.len() - offset
            } else {
                MAX_READ_SIZE
            };
            let expected_chunk = slice_to_vec(
                slice_subrange(expected_data, offset, offset + chunk_size),
            );
            let request = le32(chunk_size as u32);
            let packet = Packet::new_with_sequence(
                Command::Read,
                current_address,
                request,
                sequence,
            );
            let response = match self.send_command(&packet) {
                Ok(resp) => resp,
                Err(e) => {
                    return Err(e);
                },
            };
            if response.data.len() != chunk_size {
                return Err(HostError::InvalidResponse);
            }
            let mut i: usize = 0;
            while i < chunk_size
                invariant
                    i <= chunk_size,
                    0 < chunk_size,
                    offset + chunk_size <= expected_data@.len(),
                    response.data@.len() == chunk_size,
                    expected_chunk@.len() == chunk_size,
                    expected_chunk@ == expected_data@.subrange(
                        offset as int,
                        offset + chunk_size,
                    ),
                    current_address == address + offset,
                    address + expected_data@.len() <= u32::MAX,
                decreases chunk_size - i,
            {
                if response.data[i] != expected_chunk[i] {
                    return Err(
                        HostError::VerifyFailed {
                            address: current_address,
                            offset: (offset + i) as u32,
                            expected: expected_chunk[i],
                            actual: response.data[i],
                        },
                    );
                }
                i = i + 1;
            }
            current_address = current_address + chunk_size as u32;
            offset = offset + chunk_size;
            sequence = if sequence == u16::MAX {
                0
            } else {
                sequence + 1
            };
        }
        Ok(())
    }

    /// Content-hash verification: hashes `original_data`, reads the whole
    /// range back, hashes the readback, and compares the two digests.
    pub fn verify_with_hash(&mut self, address: u32, original_data: &[u8]) -> (r: Result<
        (),
        HostError,
    >)
        requires
            address + original_data@.len() <= u32::MAX,
            original_data@.len() <= u32::MAX,
        ensures
            original_data@.len() == 0 ==> r is Ok,
            r matches Err(e) ==> spec_is_transact_error(e) || e == HostError::InvalidResponse || e
                == HostError::HashMismatch,
    {
        let original_hash = sha256_digest(original_data);
        let flash_data = match self.read_chunked(
            address,
            original_data.len() as u32,
            MAX_READ_SIZE,
        ) {
            Ok(v) => v,
            Err(e) => {
                return Err(e);
            },
        };
        proof {
            if original_data@.len() == 0 {
                assert(original_data@ =~= flash_data@);
            }
        }
        let flash_hash = sha256_digest(flash_data.as_slice());
        if original_hash == flash_hash {
            Ok(())
        } else {
            Err(HostError::HashMismatch)
        }
    }

    /// Block-level checksum verification of one block: sends the expected
    /// CRC-32 and the block length, and lets the device compare against its
    /// own stored bytes.
    pub fn verify_with_crc(&mut self, address: u32, data: &[u8]) -> (r: Result<(), HostError>)
        requires
            data@.len() <= u32::MAX,
        ensures
            r is Err ==> (r == Err::<(), HostError>(HostError::Transport) || r == Err::<
                (),
                HostError,
            >(HostError::BlockCrcMismatch(address))),
    {
        let expected_crc = crc32(data);
        let mut payload = le32(expected_crc);
        let mut size_bytes = le32(data.len() as u32);
        payload.append(&mut size_bytes);
        let packet = Packet::new_with_sequence(Command::VerifyCRC, address, payload, 1);
        match self.send_command(&packet) {
            Ok(_) => Ok(()),
            Err(HostError::Transport) => Err(HostError::Transport),
            Err(_) => Err(HostError::BlockCrcMismatch(address)),
        }
    }

    /// Progressive block-level checksum verification: for each block of
    /// `VERIFY_BLOCK_SIZE` bytes, computes its CRC-32 and asks the device to
    /// compare; the first failing block aborts with its address.
    pub fn verify_with_progressive_crc(&mut self, address: u32, data: &[u8]) -> (r: Result<
        (),
        HostError,
    >)
        requires
            address + data@.len() <= u32::MAX,
        ensures
            data@.len() == 0 ==> r is Ok,
            r matches Err(e) ==> (e == HostError::Transport || (e matches
            HostError::BlockCrcMismatch(a) && address <= a < address + data@.len())),
    {
        let mut offset: usize = 0;
        let mut current_address = address;
        let mut sequence: u16 = 1;
        while offset < data.len()
            invariant
                offset <= data@.len(),
                current_address == address + offset,
                address + data@.len() <= u32::MAX,
            decreases data@.len() - offset,
        {
            let block_size = if data.len() - offset < VERIFY_BLOCK_SIZE {
                data.len() - offset
            } else {
                VERIFY_BLOCK_SIZE
            };
            let block = slice_subrange(data, offset, offset + block_size);
            let expected_crc = crc32(block);
            let mut payload = le32(expected_crc);
            let mut size_bytes = le32(block_size as u32);
            payload.append(&mut size_bytes);
            let packet = Packet::new_with_sequence(
                Command::VerifyCRC,
                current_address,
                payload,
                sequence,
            );
            match self.send_command(&packet) {
                Ok(_) => {},
                Err(HostError::Transport) => {
                    return Err(HostError::Transport);
                },
                Err(_) => {
                    return Err(HostError::BlockCrcMismatch(current_address));
                },
            }
            current_address = current_address + block_size as u32;
            offset = offset + block_size;
            sequence = if sequence == u16::MAX {
                0
            } else {
                sequence + 1
            };
        }
        Ok(())
    }

    /// Streams `data` to the device, then verifies it block by block with
    /// checksums.
    pub fn write_and_verify_with_progress(&mut self, address: u32, data: &[u8]) -> (r: Result<
        (),
        HostError,
    >)
        requires
            address + data@.len() <= u32::MAX,
        ensures
            data@.len() == 0 ==> r is Ok,
            r matches Err(e) ==> (e == HostError::Transport || (e matches
            HostError::BlockCrcMismatch(a) && address <= a < address + data@.len())),
    {
        match self.stream_write_with_progress(address, data) {
            Ok(_) => {},
            Err(e) => {
                return Err(e);
            },
        }
        self.verify_with_progressive_crc(address, data)
    }
}

} // verus!
