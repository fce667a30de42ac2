//! The firmware command dispatcher: binds a parsed packet to the flash
//! manager's operations and builds the response. Acknowledged commands always
//! produce exactly one well-formed response; the fire-and-forget write
//! variants produce none. Larger reads are chunked here, as the driver
//! bounds a single read.

use vstd::prelude::*;
use vstd::slice::slice_subrange;
use crate::crc32::crc32;
use crate::driver::SpiLink;
use crate::framer::{
    Framer, spec_framer_push, spec_framer_step, lemma_framer_step_len,
};
use crate::lebytes::{spec_le32, spec_from_le32, le32, from_le32, lemma_le32_round_trip};
use crate::manager::{SafeFlashManager, SafeFlashError, MAX_SINGLE_READ};
use crate::driver::FlashInfo;
use crate::wire::{
    Command, Packet, PacketView, Response, Status, spec_response_from_bytes,
    lemma_response_round_trip, FLASH_SECTOR_SIZE, FLASH_TOTAL_SIZE, MAX_PAYLOAD_SIZE,
    RESPONSE_MIN_SIZE,
};
use crate::plan::plan_erase_sectors;

verus! {

/// The 16-byte payload of an Info response: identifier, total size, page
/// size and sector size, each four little-endian bytes.
pub open spec fn spec_info_payload(info: FlashInfo) -> Seq<u8> {
    spec_le32(info.jedec_id) + spec_le32(info.total_size) + spec_le32(info.page_size)
        + spec_le32(info.sector_size)
}

/// Encodes device information into the 16-byte Info payload.
pub fn encode_flash_info(info: &FlashInfo) -> (r: Vec<u8>)
    ensures
        r@ == spec_info_payload(*info),
        r@.len() == 16,
{
    let mut bytes: Vec<u8> = Vec::new();
    let mut j = le32(info.jedec_id);
    bytes.append(&mut j);
    let mut t = le32(info.total_size);
    bytes.append(&mut t);
    let mut p = le32(info.page_size);
    bytes.append(&mut p);
    let mut s = le32(info.sector_size);
    bytes.append(&mut s);
    proof {
        assert(bytes@ =~= spec_info_payload(*info));
    }
    bytes
}

/// Decodes the first 16 bytes of an Info payload back into device
/// information; fails exactly when fewer than 16 bytes were supplied.
pub fn decode_flash_info(data: &Vec<u8>) -> (r: Option<FlashInfo>)
    ensures
        data@.len() >= 16 ==> r == Some(
            FlashInfo {
                jedec_id: spec_from_le32(data@.subrange(0, 4)),
                total_size: spec_from_le32(data@.subrange(4, 8)),
                page_size: spec_from_le32(data@.subrange(8, 12)),
                sector_size: spec_from_le32(data@.subrange(12, 16)),
            },
        ),
        data@.len() < 16 ==> r is None,
{
    if data.len() < 16 {
        return None;
    }
    let jedec_id = from_le32(slice_subrange(data.as_slice(), 0, 4));
    let total_size = from_le32(slice_subrange(data.as_slice(), 4, 8));
    let page_size = from_le32(slice_subrange(data.as_slice(), 8, 12));
    let sector_size = from_le32(slice_subrange(data.as_slice(), 12, 16));
    Some(FlashInfo { jedec_id, total_size, page_size, sector_size })
}

/// Decoding an Info payload gives back the information it encodes.
pub proof fn lemma_info_payload_round_trip(info: FlashInfo)
    ensures
        ({
            let p = spec_info_payload(info);
            &&& p.len() == 16
            &&& spec_from_le32(p.subrange(0, 4)) == info.jedec_id
            &&& spec_from_le32(p.subrange(4, 8)) == info.total_size
            &&& spec_from_le32(p.subrange(8, 12)) == info.page_size
            &&& spec_from_le32(p.subrange(12, 16)) == info.sector_size
        }),
{
    let p = spec_info_payload(info);
    assert(p.subrange(0, 4) =~= spec_le32(info.jedec_id));
    assert(p.subrange(4, 8) =~= spec_le32(info.total_size));
    assert(p.subrange(8, 12) =~= spec_le32(info.page_size));
    assert(p.subrange(12, 16) =~= spec_le32(info.sector_size));
    lemma_le32_round_trip(info.jedec_id);
    lemma_le32_round_trip(info.total_size);
    lemma_le32_round_trip(info.page_size);
    lemma_le32_round_trip(info.sector_size);
}

/// Whether a command expects no response: the streamed and batched write
/// variants trade acknowledgment for throughput.
pub open spec fn spec_is_fire_and_forget(c: Command) -> bool {
    c == Command::StreamWrite || c == Command::BatchWrite
}

/// The reply status for a failed flash operation: a busy-poll timeout is
/// reported as `Timeout`, every other failure as `FlashError`, so the host
/// can tell a slow or wedged chip from a bus or validation fault.
pub open spec fn spec_flash_error_status(e: SafeFlashError) -> Status {
    if e == SafeFlashError::Timeout {
        Status::Timeout
    } else {
        Status::FlashError
    }
}

/// Returns the reply status for a failed flash operation.
pub fn flash_error_status(e: SafeFlashError) -> (r: Status)
    ensures
        r == spec_flash_error_status(e),
{
    match e {
        SafeFlashError::Timeout => Status::Timeout,
        _ => Status::FlashError,
    }
}

/// The statuses a flash-backed operation can answer with once its request
/// was well-formed and in bounds.
pub open spec fn spec_is_flash_outcome(s: Status) -> bool {
    s == Status::Success || s == Status::FlashError || s == Status::Timeout
}

/// Reads exactly `length` bytes starting at `address` by issuing reads of at
/// most the manager's single-read cap.
fn read_exact<L: SpiLink>(flash: &mut SafeFlashManager<L>, address: u32, length: u32) -> (r: Result<
    Vec<u8>,
    SafeFlashError,
>)
    requires
        address + length <= u32::MAX,
    ensures
        r matches Ok(v) ==> v@.len() == length,
        final(flash).spec_available() == old(flash).spec_available(),
        final(flash).spec_cached_info() == old(flash).spec_cached_info(),
{
    let mut out: Vec<u8> = Vec::new();
    let end = address + length;
    let mut cur = address;
    while cur < end
        invariant
            flash.spec_available() == old(flash).spec_available(),
            flash.spec_cached_info() == old(flash).spec_cached_info(),
            address <= cur <= end,
            end == address + length,
            out@.len() == cur - address,
        decreases end - cur,
    {
        let remaining = end - cur;
        let want = if remaining as usize > MAX_SINGLE_READ {
            MAX_SINGLE_READ as u32
        } else {
            remaining
        };
        let mut piece = match flash.read_data(cur, want) {
            Ok(v) => v,
            Err(e) => {
                return Err(e);
            },
        };
        out.append(&mut piece);
        cur = cur + want;
    }
    Ok(out)
}

/// Dispatches one parsed packet to the flash manager and builds the reply.
/// Exactly the acknowledged commands get a response, and every response is
/// well-formed. An available device answers Info with its cached
/// information, encoded as the 16-byte payload. Malformed request payloads
/// and out-of-bounds ranges are answered with `InvalidAddress`, exactly as
/// the clauses below state; a flash failure with `FlashError` or, for a
/// busy-poll timeout, `Timeout`; a failed comparison with
/// `VerificationFailed`.
pub fn handle_packet<L: SpiLink>(packet: &Packet, flash: &mut SafeFlashManager<L>) -> (r: Option<
    Response,
>)
    ensures
        r is Some <==> !spec_is_fire_and_forget(packet.command),
        r matches Some(resp) ==> resp@.wf(),
        packet.command == Command::Info && old(flash).spec_available() ==> (r matches Some(resp)
            && resp.status == Status::Success && resp.data@ == spec_info_payload(
            old(flash).spec_cached_info(),
        )),
        packet.command == Command::Info && !old(flash).spec_available() ==> (r matches Some(resp)
            && resp.status == Status::FlashError),
        packet.command == Command::Read ==> (r matches Some(resp) ==> ({
            let size = spec_from_le32(packet.data@.subrange(0, 4));
            &&& (packet.data@.len() < 4 ==> resp.status == Status::InvalidAddress)
            &&& (packet.data@.len() >= 4 && size > MAX_PAYLOAD_SIZE ==> resp.status
                == Status::InvalidAddress)
            &&& (packet.data@.len() >= 4 && size <= MAX_PAYLOAD_SIZE && (packet.address
                >= FLASH_TOTAL_SIZE || packet.address + size > FLASH_TOTAL_SIZE) ==> resp.status
                == Status::InvalidAddress)
            &&& (packet.data@.len() >= 4 && size <= MAX_PAYLOAD_SIZE && packet.address
                < FLASH_TOTAL_SIZE && packet.address + size <= FLASH_TOTAL_SIZE
                ==> spec_is_flash_outcome(resp.status))
            &&& (resp.status == Status::Success ==> packet.data@.len() >= 4 && resp.data@.len()
                == size)
        })),
        packet.command == Command::Write ==> (r matches Some(resp) ==> spec_is_flash_outcome(
            resp.status,
        )),
        packet.command == Command::Erase ==> (r matches Some(resp) ==> ({
            let size = spec_from_le32(packet.data@.subrange(0, 4));
            &&& (packet.data@.len() < 4 ==> resp.status == Status::InvalidAddress)
            &&& (packet.data@.len() >= 4 && (packet.address >= FLASH_TOTAL_SIZE || packet.address
                + size > FLASH_TOTAL_SIZE) ==> resp.status == Status::InvalidAddress)
            &&& (packet.data@.len() >= 4 && packet.address < FLASH_TOTAL_SIZE && packet.address
                + size <= FLASH_TOTAL_SIZE ==> spec_is_flash_outcome(resp.status))
        })),
        packet.command == Command::Verify ==> (r matches Some(resp) ==> ({
            let size = packet.data@.len();
            &&& (size == 0 || size > MAX_PAYLOAD_SIZE ==> resp.status == Status::InvalidAddress)
            &&& (0 < size <= MAX_PAYLOAD_SIZE && (packet.address >= FLASH_TOTAL_SIZE
                || packet.address + size > FLASH_TOTAL_SIZE) ==> resp.status
                == Status::InvalidAddress)
            &&& (0 < size <= MAX_PAYLOAD_SIZE && packet.address < FLASH_TOTAL_SIZE
                && packet.address + size <= FLASH_TOTAL_SIZE ==> (spec_is_flash_outcome(
                resp.status,
            ) || resp.status == Status::VerificationFailed))
        })),
        packet.command == Command::VerifyCRC ==> (r matches Some(resp) ==> ({
            let size = spec_from_le32(packet.data@.subrange(4, 8));
            &&& (packet.data@.len() < 8 ==> resp.status == Status::InvalidAddress)
            &&& (packet.data@.len() >= 8 && (packet.address >= FLASH_TOTAL_SIZE || packet.address
                + size > FLASH_TOTAL_SIZE) ==> resp.status == Status::InvalidAddress)
            &&& (packet.data@.len() >= 8 && packet.address < FLASH_TOTAL_SIZE && packet.address
                + size <= FLASH_TOTAL_SIZE ==> (spec_is_flash_outcome(resp.status) || resp.status
                == Status::VerificationFailed))
        })),
        packet.command == Command::Status ==> (r matches Some(resp) ==> (spec_is_flash_outcome(
            resp.status,
        ) && (resp.status == Status::Success ==> resp.data@.len() == 1))),
        packet.command == Command::BatchAck ==> (r matches Some(resp) ==> resp.status
            == Status::Success),
        final(flash).spec_available() == old(flash).spec_available(),
        final(flash).spec_cached_info() == old(flash).spec_cached_info(),
{
    match packet.command {
        Command::Info => {
            match flash.get_flash_info() {
                Ok(info) => Some(Response::new(Status::Success, encode_flash_info(&info))),
                Err(_) => Some(Response::new(Status::FlashError, Vec::new())),
            }
        },
        Command::Read => {
            if packet.data.len() < 4 {
                return Some(Response::new(Status::InvalidAddress, Vec::new()));
            }
            let size = from_le32(slice_subrange(packet.data.as_slice(), 0, 4));
            if size as usize > MAX_PAYLOAD_SIZE {
                return Some(Response::new(Status::InvalidAddress, Vec::new()));
            }
            if packet.address >= FLASH_TOTAL_SIZE as u32 || size
                > FLASH_TOTAL_SIZE as u32 - packet.address {
                return Some(Response::new(Status::InvalidAddress, Vec::new()));
            }
            match read_exact(flash, packet.address, size) {
                Ok(data) => Some(Response::new(Status::Success, data)),
                Err(e) => Some(Response::new(flash_error_status(e), Vec::new())),
            }
        },
        Command::Write => {
            match flash.write_data(packet.address, packet.data.as_slice()) {
                Ok(_) => Some(Response::new(Status::Success, Vec::new())),
                Err(e) => Some(Response::new(flash_error_status(e), Vec::new())),
            }
        },
        Command::Erase => {
            if packet.data.len() < 4 {
                return Some(Response::new(Status::InvalidAddress, Vec::new()));
            }
            let size = from_le32(slice_subrange(packet.data.as_slice(), 0, 4));
            if packet.address >= FLASH_TOTAL_SIZE as u32 || size
                > FLASH_TOTAL_SIZE as u32 - packet.address {
                return Some(Response::new(Status::InvalidAddress, Vec::new()));
            }
            let sectors = plan_erase_sectors(packet.address, size, FLASH_SECTOR_SIZE as u32);
            let mut i: usize = 0;
            let mut failure: Option<SafeFlashError> = None;
            while i < sectors.len()
                invariant
                    flash.spec_available() == old(flash).spec_available(),
                    flash.spec_cached_info() == old(flash).spec_cached_info(),
                    i <= sectors@.len(),
                decreases sectors@.len() - i,
            {
                match flash.erase_sector(sectors[i]) {
                    Ok(_) => {},
                    Err(e) => {
                        failure = Some(e);
                        break ;
                    },
                }
                i = i + 1;
            }
            match failure {
                Some(e) => Some(Response::new(flash_error_status(e), Vec::new())),
                None => Some(Response::new(Status::Success, Vec::new())),
            }
        },
        Command::Verify => {
            if packet.data.len() == 0 || packet.data.len() > MAX_PAYLOAD_SIZE {
                return Some(Response::new(Status::InvalidAddress, Vec::new()));
            }
            let size = packet.data.len() as u32;
            if packet.address >= FLASH_TOTAL_SIZE as u32 || size
                > FLASH_TOTAL_SIZE as u32 - packet.address {
                return Some(Response::new(Status::InvalidAddress, Vec::new()));
            }
            match read_exact(flash, packet.address, size) {
                Ok(buf) => {
                    if buf == packet.data {
                        Some(Response::new(Status::Success, Vec::new()))
                    } else {
                        Some(Response::new(Status::VerificationFailed, Vec::new()))
                    }
                },
                Err(e) => Some(Response::new(flash_error_status(e), Vec::new())),
            }
        },
        Command::VerifyCRC => {
            if packet.data.len() < 8 {
                return Some(Response::new(Status::InvalidAddress, Vec::new()));
            }
            let expected = from_le32(slice_subrange(packet.data.as_slice(), 0, 4));
            let size = from_le32(slice_subrange(packet.data.as_slice(), 4, 8));
            if packet.address >= FLASH_TOTAL_SIZE as u32 || size
                > FLASH_TOTAL_SIZE as u32 - packet.address {
                return Some(Response::new(Status::InvalidAddress, Vec::new()));
            }
            match read_exact(flash, packet.address, size) {
                Ok(buf) => {
                    let computed = crc32(buf.as_slice());
                    if computed == expected {
                        Some(Response::new(Status::Success, Vec::new()))
                    } else {
                        Some(Response::new(Status::VerificationFailed, Vec::new()))
                    }
                },
                Err(e) => Some(Response::new(flash_error_status(e), Vec::new())),
            }
        },
        Command::Status => {
            match flash.read_status() {
                Ok(status) => {
                    let mut data: Vec<u8> = Vec::new();
                    data.push(status);
                    Some(Response::new(Status::Success, data))
                },
                Err(e) => Some(Response::new(flash_error_status(e), Vec::new())),
            }
        },
        Command::StreamWrite | Command::BatchWrite => {
            let _ = flash.write_data(packet.address, packet.data.as_slice());
            None
        },
        Command::BatchAck => Some(Response::new(Status::Success, Vec::new())),
    }
}

/// Why `process_packet` produced no response bytes.
#[derive(Debug, Clone, Copy, PartialEq, Eq, Structural)]
pub enum ProcessError {
    /// No complete acknowledged packet is buffered yet; feed more data.
    Incomplete,
}

/// Framing a buffer repeatedly until the first acknowledged packet: the
/// fire-and-forget frames before it are consumed along the way, and the
/// result is the remaining buffer and that packet, if any complete
/// acknowledged frame was buffered at all.
pub open spec fn spec_drain_until_ack(b: Seq<u8>) -> (Seq<u8>, Option<PacketView>)
    decreases b.len(),
    via spec_drain_until_ack_decreases
{
    let step = spec_framer_step(b);
    match step.1 {
        None => (step.0, None),
        Some(pv) => {
            if spec_is_fire_and_forget(pv.command) {
                spec_drain_until_ack(step.0)
            } else {
                (step.0, Some(pv))
            }
        },
    }
}

#[via_fn]
proof fn spec_drain_until_ack_decreases(b: Seq<u8>) {
    lemma_framer_step_len(b);
}

/// The firmware-side session: a framer feeding the dispatcher, returning
/// serialized responses ready for the transport. Its view is the buffered,
/// not yet framed bytes.
pub struct ProtocolHandler {
    buffer: Framer,
}

impl View for ProtocolHandler {
    type V = Seq<u8>;

    closed spec fn view(&self) -> Seq<u8> {
        self.buffer@
    }
}

impl ProtocolHandler {
    /// Creates a handler with an empty accumulation buffer.
    pub fn new() -> (r: ProtocolHandler)
        ensures
            r@ == Seq::<u8>::empty(),
    {
        ProtocolHandler { buffer: Framer::new() }
    }

    /// Feeds one inbound chunk, dispatches every complete packet it
    /// completes, and returns the serialized response of the first
    /// acknowledged one. The outcome is decided by the buffer alone:
    /// appending the chunk (under the framer cap) and draining until the
    /// first acknowledged frame gives exactly the remaining buffer, and
    /// `Incomplete` comes back exactly when that drain finds no acknowledged
    /// packet. Whatever is returned parses as one well-formed response frame.
    pub fn process_packet<L: SpiLink>(
        &mut self,
        data: &[u8],
        flash: &mut SafeFlashManager<L>,
    ) -> (r: Result<Vec<u8>, ProcessError>)
        ensures
            ({
                let drained = spec_drain_until_ack(spec_framer_push(old(self)@, data@));
                &&& final(self)@ == drained.0
                &&& (r is Ok <==> drained.1 is Some)
            }),
            r matches Ok(bytes) ==> bytes@.len() >= RESPONSE_MIN_SIZE && spec_response_from_bytes(
                bytes@,
            ) is Some,
            final(flash).spec_available() == old(flash).spec_available(),
            final(flash).spec_cached_info() == old(flash).spec_cached_info(),
    {
        self.buffer.push(data);
        loop
            invariant
                spec_drain_until_ack(spec_framer_push(old(self)@, data@))
                    == spec_drain_until_ack(self@),
                flash.spec_available() == old(flash).spec_available(),
                flash.spec_cached_info() == old(flash).spec_cached_info(),
            decreases self@.len(),
        {
            let ghost b = self@;
            let packet = match self.buffer.next_packet() {
                Some(p) => p,
                None => {
                    proof {
                        assert(spec_drain_until_ack(b) == (
                            spec_framer_step(b).0,
                            None::<PacketView>,
                        ));
                    }
                    return Err(ProcessError::Incomplete);
                },
            };
            match handle_packet(&packet, flash) {
                Some(resp) => {
                    proof {
                        assert(spec_drain_until_ack(b) == (
                            spec_framer_step(b).0,
                            Some(packet@),
                        ));
                    }
                    let bytes = resp.to_bytes();
                    proof {
                        lemma_response_round_trip(resp@);
                    }
                    return Ok(bytes);
                },
                None => {
                    proof {
                        assert(spec_drain_until_ack(b) == spec_drain_until_ack(
                            spec_framer_step(b).0,
                        ));
                    }
                },
            }
        }
    }
}

} // verus!
