//! A simulated flash chip and a loopback channel over it, for exercising the
//! whole stack without hardware: the chip decodes the same SPI command bytes
//! the driver emits, and the channel runs every outbound packet through the
//! real encoder, framer, dispatcher and decoder.

use vstd::prelude::*;
use crate::dispatch::handle_packet;
use crate::driver::{
    SpiFault, SpiLink, CMD_PAGE_PROGRAM, CMD_READ_DATA, CMD_READ_JEDEC_ID, CMD_READ_STATUS,
    CMD_SECTOR_ERASE, CMD_WRITE_ENABLE,
};
use crate::framer::Framer;
use crate::host::{ChannelError, PacketChannel};
use crate::manager::SafeFlashManager;
use crate::wire::{lemma_response_round_trip, Packet, Response, FLASH_SECTOR_SIZE};

verus! {

/// Builds a response buffer of exactly `n` bytes, all zero.
fn zero_bytes(n: usize) -> (r: Vec<u8>)
    ensures
        r@.len() == n,
{
    let mut v: Vec<u8> = Vec::new();
    let mut i: usize = 0;
    while i < n
        invariant
            v@.len() == i,
            i <= n,
        decreases n - i,
    {
        v.push(0u8);
        i = i + 1;
    }
    v
}

/// A simulated flash chip behind the SPI port: a byte array with overwrite
/// semantics for page programs, `0xFF` fill for sector erases, a
/// write-enable latch, and a busy bit that stays set for a configurable
/// number of polls after each program or erase — or forever, to exercise
/// the driver's poll bound.
pub struct SimFlash {
    mem: Vec<u8>,
    jedec: u32,
    wel: bool,
    busy_countdown: u32,
    busy_per_op: u32,
    stuck_busy: bool,
}

impl SimFlash {
    /// Creates a chip with the given identifier and capacity, erased to
    /// `0xFF` throughout, reporting ready immediately after each operation.
    pub fn new(jedec: u32, size: usize) -> (r: SimFlash) {
        SimFlash {
            mem: vec![0xFFu8; size],
            jedec,
            wel: false,
            busy_countdown: 0,
            busy_per_op: 0,
            stuck_busy: false,
        }
    }

    /// Makes every program and erase hold the busy bit for `polls` status
    /// reads before reporting ready.
    pub fn set_busy_per_op(&mut self, polls: u32) {
        self.busy_per_op = polls;
    }

    /// Makes the busy bit never clear: every status read reports busy, so a
    /// bounded poll loop must give up.
    pub fn set_stuck_busy(&mut self) {
        self.stuck_busy = true;
    }

    /// The 24-bit address carried by a four-byte command.
    fn command_address(tx: &Vec<u8>) -> (r: usize)
        requires
            tx@.len() >= 4,
    {
        (tx[1] as usize) * 65536 + (tx[2] as usize) * 256 + (tx[3] as usize)
    }
}

impl SpiLink for SimFlash {
    fn exchange(&mut self, tx: &Vec<u8>, rx_len: usize) -> (r: Result<Vec<u8>, SpiFault>) {
        if tx.len() == 0 {
            return Ok(zero_bytes(rx_len));
        }
        let cmd = tx[0];
        if cmd == CMD_READ_JEDEC_ID {
            let mut out: Vec<u8> = Vec::new();
            let mut i: usize = 0;
            while i < rx_len
                invariant
                    out@.len() == i,
                    i <= rx_len,
                decreases rx_len - i,
            {
                let b: u8 = if i == 0 {
                    #[verifier::truncate] ((self.jedec >> 16) as u8)
                } else if i == 1 {
                    #[verifier::truncate] ((self.jedec >> 8) as u8)
                } else if i == 2 {
                    #[verifier::truncate] (self.jedec as u8)
                } else {
                    0
                };
                out.push(b);
                i = i + 1;
            }
            Ok(out)
        } else if cmd == CMD_READ_STATUS {
            let busy = self.stuck_busy || self.busy_countdown > 0;
            if self.busy_countdown > 0 {
                self.busy_countdown = self.busy_countdown - 1;
            }
            let status: u8 = (if busy {
                1u8
            } else {
                0u8
            }) | (if self.wel {
                2u8
            } else {
                0u8
            });
            let mut out = zero_bytes(rx_len);
            if out.len() > 0 {
                out[0] = status;
            }
            Ok(out)
        } else if cmd == CMD_WRITE_ENABLE {
            self.wel = true;
            Ok(zero_bytes(rx_len))
        } else if cmd == CMD_PAGE_PROGRAM {
            if tx.len() >= 4 && self.wel && !self.stuck_busy && self.busy_countdown == 0 {
                let base = Self::command_address(tx);
                let count = tx.len() - 4;
                let mut i: usize = 0;
                while i < count
                    invariant
                        i <= count,
                        count <= usize::MAX - 4,
                        count + 4 == tx@.len(),
                    decreases count - i,
                {
                    if base < self.mem.len() && i < self.mem.len() - base {
                        let value = tx[4 + i];
                        self.mem[base + i] = value;
                    }
                    i = i + 1;
                }
                self.busy_countdown = self.busy_per_op;
            }
            self.wel = false;
            Ok(zero_bytes(rx_len))
        } else if cmd == CMD_SECTOR_ERASE {
            if tx.len() >= 4 && self.wel && !self.stuck_busy && self.busy_countdown == 0 {
                let base = Self::command_address(tx);
                let mut i: usize = 0;
                while i < FLASH_SECTOR_SIZE
                    invariant
                        i <= FLASH_SECTOR_SIZE,
                    decreases FLASH_SECTOR_SIZE - i,
                {
                    if base < self.mem.len() && i < self.mem.len() - base {
                        self.mem[base + i] = 0xFF;
                    }
                    i = i + 1;
                }
                self.busy_countdown = self.busy_per_op;
            }
            self.wel = false;
            Ok(zero_bytes(rx_len))
        } else if cmd == CMD_READ_DATA {
            if tx.len() < 4 {
                return Ok(zero_bytes(rx_len));
            }
            let base = Self::command_address(tx);
            let mut out: Vec<u8> = Vec::new();
            let mut i: usize = 0;
            while i < rx_len
                invariant
                    out@.len() == i,
                    i <= rx_len,
                decreases rx_len - i,
            {
                let b: u8 = if base < self.mem.len() && i < self.mem.len() - base {
                    self.mem[base + i]
                } else {
                    0xFF
                };
                out.push(b);
                i = i + 1;
            }
            Ok(out)
        } else {
            Ok(zero_bytes(rx_len))
        }
    }

    fn pause(&mut self) {
    }
}

/// A loopback channel: every packet is serialized, fed through the framer,
/// dispatched against a simulated device, and the response serialized and
/// decoded again — the full protocol stack with no transport between.
pub struct SimChannel {
    framer: Framer,
    manager: SafeFlashManager<SimFlash>,
}

impl SimChannel {
    /// Builds the channel over a simulated chip and probes it once.
    pub fn new(flash: SimFlash) -> (r: SimChannel) {
        let mut manager = SafeFlashManager::new(flash);
        let _ = manager.try_initialize();
        SimChannel { framer: Framer::new(), manager }
    }

    /// Whether the probe left the simulated device available.
    pub closed spec fn spec_device_available(&self) -> bool {
        self.manager.spec_available()
    }

    /// Reports whether the probe left the simulated device available.
    pub fn device_available(&self) -> (r: bool)
        ensures
            r == self.spec_device_available(),
    {
        self.manager.is_available()
    }
}

impl PacketChannel for SimChannel {
    fn transact(&mut self, packet: &Packet) -> (r: Result<Response, ChannelError>) {
        let bytes = packet.to_bytes();
        self.framer.push(bytes.as_slice());
        loop
            decreases self.framer@.len(),
        {
            let parsed = match self.framer.next_packet() {
                Some(p) => p,
                None => {
                    return Err(ChannelError);
                },
            };
            match handle_packet(&parsed, &mut self.manager) {
                Some(resp) => {
                    let resp_bytes = resp.to_bytes();
                    proof {
                        lemma_response_round_trip(resp@);
                    }
                    match Response::from_bytes(resp_bytes.as_slice()) {
                        Ok(decoded) => {
                            return Ok(decoded);
                        },
                        Err(_) => {
                            return Err(ChannelError);
                        },
                    }
                },
                None => {},
            }
        }
    }

    fn send_packet(&mut self, packet: &Packet) -> (r: Result<(), ChannelError>) {
        let bytes = packet.to_bytes();
        self.framer.push(bytes.as_slice());
        loop
            decreases self.framer@.len(),
        {
            match self.framer.next_packet() {
                Some(parsed) => {
                    let _ = handle_packet(&parsed, &mut self.manager);
                },
                None => {
                    return Ok(());
                },
            }
        }
    }
}

} // verus!
