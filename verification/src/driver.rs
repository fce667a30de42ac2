//! The flash device driver: sequences raw chip commands over an SPI port,
//! respecting page and sector boundaries, verifying the write-enable latch
//! before every program or erase, and bounding every busy-poll loop so that a
//! chip that never reports ready yields a `Timeout` error instead of a hang.
//!
//! The port itself is the `SpiLink` trait: one full-duplex transaction that
//! writes the given bytes and then reads the requested number back. The
//! driver's contracts say exactly which argument validations fail with which
//! error; what the bus returns is outside its control, so success is promised
//! only where nothing but the bus can refuse.

use vstd::prelude::*;
use vstd::slice::slice_subrange;
use crate::plan::{plan_chunks, plan_erase_sectors, spec_chunks_cover, spec_sectors_cover};
use crate::wire::{FLASH_PAGE_SIZE, FLASH_SECTOR_SIZE, FLASH_TOTAL_SIZE};

verus! {

/// Read the JEDEC identifier.
pub const CMD_READ_JEDEC_ID: u8 = 0x9F;

/// Read status register 1.
pub const CMD_READ_STATUS: u8 = 0x05;

/// Read status register 2.
pub const CMD_READ_STATUS2: u8 = 0x35;

/// Read status register 3.
pub const CMD_READ_STATUS3: u8 = 0x15;

/// Set the write-enable latch.
pub const CMD_WRITE_ENABLE: u8 = 0x06;

/// Read a run of data bytes.
pub const CMD_READ_DATA: u8 = 0x03;

/// Program up to one page.
pub const CMD_PAGE_PROGRAM: u8 = 0x02;

/// Erase one sector.
pub const CMD_SECTOR_ERASE: u8 = 0x20;

/// Wake the chip from deep power-down.
pub const CMD_RELEASE_POWER_DOWN: u8 = 0xAB;

/// Busy bit of status register 1.
pub const STATUS_BUSY: u8 = 0x01;

/// Write-enable-latch bit of status register 1.
pub const STATUS_WEL: u8 = 0x02;

/// How many times a busy-poll loop reads the status register before giving up.
pub const POLL_LIMIT: usize = 1000;

/// A failed bus transaction.
#[derive(Debug, Clone, Copy, PartialEq, Eq, Structural)]
pub struct SpiFault;

/// An SPI port: one transaction that writes `tx` and then reads `rx_len`
/// bytes back, and a hook for the short pause between busy polls.
pub trait SpiLink {
    /// Performs one bus transaction: write all of `tx`, then read `rx_len`
    /// bytes. On success the returned buffer has exactly `rx_len` bytes;
    /// their values are the device's to choose.
    fn exchange(&mut self, tx: &Vec<u8>, rx_len: usize) -> (r: Result<Vec<u8>, SpiFault>)
        ensures
            r matches Ok(v) ==> v@.len() == rx_len,
    ;

    /// Waits the short inter-poll delay between two busy polls.
    fn pause(&mut self);
}

/// Errors a driver operation can end with.
#[derive(Debug, Clone, Copy, PartialEq, Eq, Structural)]
pub enum FlashDriverError {
    /// The bus transaction failed.
    SpiError,
    /// The address is out of bounds or misaligned.
    InvalidAddress,
    /// The size runs past a boundary or the device's end.
    InvalidSize,
    /// The driver has not been initialized.
    NotInitialized,
    /// The busy bit did not clear within the poll bound.
    Timeout,
    /// The write-enable latch did not set after a write-enable command.
    WriteNotEnabled,
}

/// What the device reports about itself.
#[derive(Debug, Clone, Copy, PartialEq, Eq, Structural)]
pub struct FlashInfo {
    /// 24-bit JEDEC identifier.
    pub jedec_id: u32,
    /// Total capacity in bytes.
    pub total_size: u32,
    /// Smallest programmable unit in bytes.
    pub page_size: u32,
    /// Smallest erasable unit in bytes.
    pub sector_size: u32,
}

/// The three status registers, read for diagnostics.
#[derive(Debug, Clone, Copy, PartialEq, Eq, Structural)]
pub struct StatusRegisters {
    /// Status register 1: busy, write-enable latch, block protection.
    pub sr1: u8,
    /// Status register 2: quad enable, security locks.
    pub sr2: u8,
    /// Status register 3: write protect selection, driver strength.
    pub sr3: u8,
}

/// The flash device driver over an SPI port.
pub struct FlashDriver<L: SpiLink> {
    link: L,
    initialized: bool,
}

impl<L: SpiLink> FlashDriver<L> {
    /// Whether `init` has succeeded on this driver.
    pub closed spec fn spec_ready(&self) -> bool {
        self.initialized
    }

    /// Creates a driver over the given port; it must be initialized before
    /// any operation.
    pub fn new(link: L) -> (r: FlashDriver<L>)
        ensures
            !r.spec_ready(),
    {
        FlashDriver { link, initialized: false }
    }

    /// Wakes the chip and probes it by reading the JEDEC identifier; the
    /// driver is ready exactly when this succeeds.
    pub fn init(&mut self) -> (r: Result<(), FlashDriverError>)
        ensures
            r is Ok ==> final(self).spec_ready(),
            r is Err ==> final(self).spec_ready() == old(self).spec_ready(),
    {
        let mut wake: Vec<u8> = Vec::new();
        wake.push(CMD_RELEASE_POWER_DOWN);
        let _ = self.link.exchange(&wake, 0);
        match self.read_jedec_id() {
            Ok(_) => {
                self.initialized = true;
                Ok(())
            },
            Err(e) => Err(e),
        }
    }

    /// Reads the 24-bit JEDEC identifier.
    fn read_jedec_id(&mut self) -> (r: Result<u32, FlashDriverError>)
        ensures
            r matches Ok(id) ==> id < 0x1000000,
            final(self).spec_ready() == old(self).spec_ready(),
    {
        let mut tx: Vec<u8> = Vec::new();
        tx.push(CMD_READ_JEDEC_ID);
        match self.link.exchange(&tx, 3) {
            Ok(rx) => {
                let id = (rx[0] as u32) * 65536 + (rx[1] as u32) * 256 + (rx[2] as u32);
                Ok(id)
            },
            Err(_) => Err(FlashDriverError::SpiError),
        }
    }

    /// Reads status register 1 without any readiness gate.
    fn read_status_raw(&mut self) -> (r: Result<u8, FlashDriverError>)
        ensures
            r is Err ==> r == Err::<u8, FlashDriverError>(FlashDriverError::SpiError),
            final(self).spec_ready() == old(self).spec_ready(),
    {
        let mut tx: Vec<u8> = Vec::new();
        tx.push(CMD_READ_STATUS);
        match self.link.exchange(&tx, 1) {
            Ok(rx) => Ok(rx[0]),
            Err(_) => Err(FlashDriverError::SpiError),
        }
    }

    /// Reads one status register selected by its command byte.
    fn read_status_reg(&mut self, cmd: u8) -> (r: Result<u8, FlashDriverError>)
        ensures
            final(self).spec_ready() == old(self).spec_ready(),
    {
        let mut tx: Vec<u8> = Vec::new();
        tx.push(cmd);
        match self.link.exchange(&tx, 1) {
            Ok(rx) => Ok(rx[0]),
            Err(_) => Err(FlashDriverError::SpiError),
        }
    }

    /// Sends write-enable and confirms the write-enable latch is set; a chip
    /// that does not set it is dead or write-protected, and the whole
    /// operation is aborted rather than silently corrupting data.
    fn write_enable(&mut self) -> (r: Result<(), FlashDriverError>)
        ensures
            r is Err ==> (r == Err::<(), FlashDriverError>(FlashDriverError::SpiError) || r
                == Err::<(), FlashDriverError>(FlashDriverError::WriteNotEnabled)),
            final(self).spec_ready() == old(self).spec_ready(),
    {
        let mut tx: Vec<u8> = Vec::new();
        tx.push(CMD_WRITE_ENABLE);
        match self.link.exchange(&tx, 0) {
            Ok(_) => {},
            Err(_) => {
                return Err(FlashDriverError::SpiError);
            },
        }
        let status = match self.read_status_raw() {
            Ok(s) => s,
            Err(e) => {
                return Err(e);
            },
        };
        if status & STATUS_WEL == 0 {
            return Err(FlashDriverError::WriteNotEnabled);
        }
        Ok(())
    }

    /// Polls status register 1 until the busy bit clears, with a short pause
    /// between polls, and gives up with `Timeout` after `POLL_LIMIT` polls:
    /// a device that never becomes ready cannot hang the driver. On success
    /// the returned status byte has the busy bit clear.
    fn wait_for_ready(&mut self) -> (r: Result<u8, FlashDriverError>)
        ensures
            r matches Ok(s) ==> s & STATUS_BUSY == 0,
            r is Err ==> (r == Err::<u8, FlashDriverError>(FlashDriverError::SpiError) || r
                == Err::<u8, FlashDriverError>(FlashDriverError::Timeout)),
            final(self).spec_ready() == old(self).spec_ready(),
    {
        let mut polls: usize = 0;
        while polls < POLL_LIMIT
            invariant
                self.spec_ready() == old(self).spec_ready(),
            decreases POLL_LIMIT - polls,
        {
            let status = match self.read_status_raw() {
                Ok(s) => s,
                Err(e) => {
                    return Err(e);
                },
            };
            if status & STATUS_BUSY == 0 {
                return Ok(status);
            }
            self.link.pause();
            polls = polls + 1;
        }
        Err(FlashDriverError::Timeout)
    }

    /// Reads the device information; the sizes are the device's fixed
    /// geometry and the identifier is re-read from the chip.
    pub fn get_info(&mut self) -> (r: Result<FlashInfo, FlashDriverError>)
        ensures
            !old(self).spec_ready() ==> r == Err::<FlashInfo, FlashDriverError>(
                FlashDriverError::NotInitialized,
            ),
            r matches Ok(info) ==> old(self).spec_ready() && info.jedec_id < 0x1000000
                && info.total_size == FLASH_TOTAL_SIZE as u32 && info.page_size
                == FLASH_PAGE_SIZE as u32 && info.sector_size == FLASH_SECTOR_SIZE as u32,
            final(self).spec_ready() == old(self).spec_ready(),
    {
        if !self.initialized {
            return Err(FlashDriverError::NotInitialized);
        }
        let jedec_id = match self.read_jedec_id() {
            Ok(id) => id,
            Err(e) => {
                return Err(e);
            },
        };
        Ok(
            FlashInfo {
                jedec_id,
                total_size: FLASH_TOTAL_SIZE as u32,
                page_size: FLASH_PAGE_SIZE as u32,
                sector_size: FLASH_SECTOR_SIZE as u32,
            },
        )
    }

    /// Reads all three status registers; a read-only diagnostic.
    pub fn read_status_registers(&mut self) -> (r: Result<StatusRegisters, FlashDriverError>)
        ensures
            !old(self).spec_ready() ==> r == Err::<StatusRegisters, FlashDriverError>(
                FlashDriverError::NotInitialized,
            ),
            final(self).spec_ready() == old(self).spec_ready(),
    {
        if !self.initialized {
            return Err(FlashDriverError::NotInitialized);
        }
        let sr1 = match self.read_status_reg(CMD_READ_STATUS) {
            Ok(s) => s,
            Err(e) => {
                return Err(e);
            },
        };
        let sr2 = match self.read_status_reg(CMD_READ_STATUS2) {
            Ok(s) => s,
            Err(e) => {
                return Err(e);
            },
        };
        let sr3 = match self.read_status_reg(CMD_READ_STATUS3) {
            Ok(s) => s,
            Err(e) => {
                return Err(e);
            },
        };
        Ok(StatusRegisters { sr1, sr2, sr3 })
    }

    /// Reads status register 1.
    pub fn read_status(&mut self) -> (r: Result<u8, FlashDriverError>)
        ensures
            !old(self).spec_ready() ==> r == Err::<u8, FlashDriverError>(
                FlashDriverError::NotInitialized,
            ),
            final(self).spec_ready() == old(self).spec_ready(),
    {
        if !self.initialized {
            return Err(FlashDriverError::NotInitialized);
        }
        self.read_status_raw()
    }

    /// Erases the sector at `address`, which must be sector-aligned and in
    /// bounds: write-enable, the erase command, then a bounded busy-poll.
    pub fn erase_sector(&mut self, address: u32) -> (r: Result<(), FlashDriverError>)
        ensures
            !old(self).spec_ready() ==> r == Err::<(), FlashDriverError>(
                FlashDriverError::NotInitialized,
            ),
            old(self).spec_ready() && (address as int) % (FLASH_SECTOR_SIZE as int) != 0 ==> r
                == Err::<(), FlashDriverError>(FlashDriverError::InvalidAddress),
            old(self).spec_ready() && (address as int) % (FLASH_SECTOR_SIZE as int) == 0 && address
                >= FLASH_TOTAL_SIZE as u32 ==> r == Err::<(), FlashDriverError>(
                FlashDriverError::InvalidAddress,
            ),
            r is Ok ==> old(self).spec_ready() && (address as int) % (FLASH_SECTOR_SIZE as int)
                == 0 && address < FLASH_TOTAL_SIZE as u32,
            old(self).spec_ready() && (address as int) % (FLASH_SECTOR_SIZE as int) == 0 && address
                < FLASH_TOTAL_SIZE as u32 ==> (r is Ok || r == Err::<(), FlashDriverError>(
                FlashDriverError::SpiError,
            ) || r == Err::<(), FlashDriverError>(FlashDriverError::WriteNotEnabled) || r == Err::<
                (),
                FlashDriverError,
            >(FlashDriverError::Timeout)),
            final(self).spec_ready() == old(self).spec_ready(),
    {
        if !self.initialized {
            return Err(FlashDriverError::NotInitialized);
        }
        if address % (FLASH_SECTOR_SIZE as u32) != 0 {
            return Err(FlashDriverError::InvalidAddress);
        }
        if address >= FLASH_TOTAL_SIZE as u32 {
            return Err(FlashDriverError::InvalidAddress);
        }
        match self.write_enable() {
            Ok(_) => {},
            Err(e) => {
                return Err(e);
            },
        }
        let mut tx: Vec<u8> = Vec::new();
        tx.push(CMD_SECTOR_ERASE);
        tx.push(#[verifier::truncate] ((address >> 16) as u8));
        tx.push(#[verifier::truncate] ((address >> 8) as u8));
        tx.push(#[verifier::truncate] (address as u8));
        match self.link.exchange(&tx, 0) {
            Ok(_) => {},
            Err(_) => {
                return Err(FlashDriverError::SpiError);
            },
        }
        match self.wait_for_ready() {
            Ok(_) => Ok(()),
            Err(e) => Err(e),
        }
    }

    /// Erases every sector that intersects `[start_address, start_address +
    /// size)`: the minimal covering set of aligned sectors, in ascending
    /// order.
    pub fn erase_range(&mut self, start_address: u32, size: u32) -> (r: Result<
        (),
        FlashDriverError,
    >)
        ensures
            !old(self).spec_ready() ==> r == Err::<(), FlashDriverError>(
                FlashDriverError::NotInitialized,
            ),
            old(self).spec_ready() && start_address >= FLASH_TOTAL_SIZE as u32 ==> r == Err::<
                (),
                FlashDriverError,
            >(FlashDriverError::InvalidAddress),
            old(self).spec_ready() && start_address < FLASH_TOTAL_SIZE as u32 && start_address
                + size > FLASH_TOTAL_SIZE as u32 ==> r == Err::<(), FlashDriverError>(
                FlashDriverError::InvalidSize,
            ),
            r is Ok ==> old(self).spec_ready() && start_address + size <= FLASH_TOTAL_SIZE as u32,
            old(self).spec_ready() && start_address < FLASH_TOTAL_SIZE as u32 && start_address
                + size <= FLASH_TOTAL_SIZE as u32 ==> (r is Ok || r == Err::<
                (),
                FlashDriverError,
            >(FlashDriverError::SpiError) || r == Err::<(), FlashDriverError>(
                FlashDriverError::WriteNotEnabled,
            ) || r == Err::<(), FlashDriverError>(FlashDriverError::Timeout)),
            final(self).spec_ready() == old(self).spec_ready(),
    {
        if !self.initialized {
            return Err(FlashDriverError::NotInitialized);
        }
        if start_address >= FLASH_TOTAL_SIZE as u32 {
            return Err(FlashDriverError::InvalidAddress);
        }
        if (start_address as u64) + (size as u64) > FLASH_TOTAL_SIZE as u64 {
            return Err(FlashDriverError::InvalidSize);
        }
        let sectors = plan_erase_sectors(start_address, size, FLASH_SECTOR_SIZE as u32);
        let ghost plan = sectors@;
        let mut i: usize = 0;
        while i < sectors.len()
            invariant
                self.spec_ready() == old(self).spec_ready(),
                self.spec_ready(),
                i <= sectors@.len(),
                sectors@ == plan,
                spec_sectors_cover(
                    plan,
                    start_address as int,
                    size as int,
                    FLASH_SECTOR_SIZE as int,
                ),
                start_address + size <= FLASH_TOTAL_SIZE as u32,
            decreases sectors@.len() - i,
        {
            let sector_address = sectors[i];
            match self.erase_sector(sector_address) {
                Ok(_) => {},
                Err(e) => {
                    return Err(e);
                },
            }
            i = i + 1;
        }
        Ok(())
    }

    /// Programs up to one page at `address`: the data must fit in the page
    /// that contains the address. Write-enable (with the latch confirmed),
    /// the program command with the data, then a bounded busy-poll.
    pub fn write_page(&mut self, address: u32, data: &[u8]) -> (r: Result<(), FlashDriverError>)
        ensures
            !old(self).spec_ready() ==> r == Err::<(), FlashDriverError>(
                FlashDriverError::NotInitialized,
            ),
            old(self).spec_ready() && data@.len() > FLASH_PAGE_SIZE ==> r == Err::<
                (),
                FlashDriverError,
            >(FlashDriverError::InvalidSize),
            old(self).spec_ready() && data@.len() <= FLASH_PAGE_SIZE && address
                >= FLASH_TOTAL_SIZE as u32 ==> r == Err::<(), FlashDriverError>(
                FlashDriverError::InvalidAddress,
            ),
            old(self).spec_ready() && data@.len() <= FLASH_PAGE_SIZE && address
                < FLASH_TOTAL_SIZE as u32 && (address as int) % (FLASH_PAGE_SIZE as int)
                + data@.len() > FLASH_PAGE_SIZE ==> r == Err::<(), FlashDriverError>(
                FlashDriverError::InvalidSize,
            ),
            r is Ok ==> old(self).spec_ready() && address < FLASH_TOTAL_SIZE as u32 && (
            address as int) % (FLASH_PAGE_SIZE as int) + data@.len() <= FLASH_PAGE_SIZE,
            old(self).spec_ready() && address < FLASH_TOTAL_SIZE as u32 && (address as int) % (
            FLASH_PAGE_SIZE as int) + data@.len() <= FLASH_PAGE_SIZE ==> (r is Ok || r == Err::<
                (),
                FlashDriverError,
            >(FlashDriverError::SpiError) || r == Err::<(), FlashDriverError>(
                FlashDriverError::WriteNotEnabled,
            ) || r == Err::<(), FlashDriverError>(FlashDriverError::Timeout)),
            final(self).spec_ready() == old(self).spec_ready(),
    {
        if !self.initialized {
            return Err(FlashDriverError::NotInitialized);
        }
        if data.len() > FLASH_PAGE_SIZE {
            return Err(FlashDriverError::InvalidSize);
        }
        if address >= FLASH_TOTAL_SIZE as u32 {
            return Err(FlashDriverError::InvalidAddress);
        }
        let offset = address % (FLASH_PAGE_SIZE as u32);
        if offset as usize + data.len() > FLASH_PAGE_SIZE {
            return Err(FlashDriverError::InvalidSize);
        }
        match self.write_enable() {
            Ok(_) => {},
            Err(e) => {
                return Err(e);
            },
        }
        let mut tx: Vec<u8> = Vec::new();
        tx.push(CMD_PAGE_PROGRAM);
        tx.push(#[verifier::truncate] ((address >> 16) as u8));
        tx.push(#[verifier::truncate] ((address >> 8) as u8));
        tx.push(#[verifier::truncate] (address as u8));
        tx.extend_from_slice(data);
        match self.link.exchange(&tx, 0) {
            Ok(_) => {},
            Err(_) => {
                return Err(FlashDriverError::SpiError);
            },
        }
        match self.wait_for_ready() {
            Ok(_) => Ok(()),
            Err(e) => Err(e),
        }
    }

    /// Writes `data` starting at `address`, split into the page-bounded
    /// chunks of `plan_chunks`, each programmed and busy-polled in turn.
    pub fn write_data(&mut self, address: u32, data: &[u8]) -> (r: Result<(), FlashDriverError>)
        ensures
            !old(self).spec_ready() ==> r == Err::<(), FlashDriverError>(
                FlashDriverError::NotInitialized,
            ),
            old(self).spec_ready() && address >= FLASH_TOTAL_SIZE as u32 ==> r == Err::<
                (),
                FlashDriverError,
            >(FlashDriverError::InvalidAddress),
            old(self).spec_ready() && address < FLASH_TOTAL_SIZE as u32 && address + data@.len()
                > FLASH_TOTAL_SIZE as u32 ==> r == Err::<(), FlashDriverError>(
                FlashDriverError::InvalidSize,
            ),
            r is Ok ==> old(self).spec_ready() && address + data@.len() <= FLASH_TOTAL_SIZE as u32,
            old(self).spec_ready() && address < FLASH_TOTAL_SIZE as u32 && data@.len() == 0 ==> r
                is Ok,
            old(self).spec_ready() && address < FLASH_TOTAL_SIZE as u32 && address + data@.len()
                <= FLASH_TOTAL_SIZE as u32 ==> (r is Ok
                || r == Err::<(), FlashDriverError>(FlashDriverError::SpiError) || r == Err::<
                (),
                FlashDriverError,
            >(FlashDriverError::WriteNotEnabled) || r == Err::<(), FlashDriverError>(
                FlashDriverError::Timeout,
            )),
            final(self).spec_ready() == old(self).spec_ready(),
    {
        if !self.initialized {
            return Err(FlashDriverError::NotInitialized);
        }
        if address >= FLASH_TOTAL_SIZE as u32 {
            return Err(FlashDriverError::InvalidAddress);
        }
        if data.len() as u64 > (FLASH_TOTAL_SIZE as u64) - (address as u64) {
            return Err(FlashDriverError::InvalidSize);
        }
        let len = data.len() as u32;
        let chunks = plan_chunks(address, len, FLASH_PAGE_SIZE as u32);
        let ghost plan = chunks@;
        let mut i: usize = 0;
        while i < chunks.len()
            invariant
                self.spec_ready() == old(self).spec_ready(),
                self.spec_ready(),
                i <= chunks@.len(),
                chunks@ == plan,
                spec_chunks_cover(plan, address as int, len as int, FLASH_PAGE_SIZE as int),
                len == data@.len(),
                address + len <= FLASH_TOTAL_SIZE as u32,
            decreases chunks@.len() - i,
        {
            let chunk = chunks[i];
            let offset = (chunk.addr - address) as usize;
            let chunk_len = chunk.len as usize;
            let piece = slice_subrange(data, offset, offset + chunk_len);
            match self.write_page(chunk.addr, piece) {
                Ok(_) => {},
                Err(e) => {
                    return Err(e);
                },
            }
            i = i + 1;
        }
        Ok(())
    }

    /// Reads `length` bytes starting at `address` in one bounded bus
    /// transaction; on success the buffer has exactly `length` bytes.
    pub fn read_data(&mut self, address: u32, length: usize) -> (r: Result<
        Vec<u8>,
        FlashDriverError,
    >)
        ensures
            !old(self).spec_ready() ==> r == Err::<Vec<u8>, FlashDriverError>(
                FlashDriverError::NotInitialized,
            ),
            old(self).spec_ready() && address >= FLASH_TOTAL_SIZE as u32 ==> r == Err::<
                Vec<u8>,
                FlashDriverError,
            >(FlashDriverError::InvalidAddress),
            old(self).spec_ready() && address < FLASH_TOTAL_SIZE as u32 && address + length
                > FLASH_TOTAL_SIZE as u32 ==> r == Err::<Vec<u8>, FlashDriverError>(
                FlashDriverError::InvalidSize,
            ),
            r matches Ok(v) ==> v@.len() == length && old(self).spec_ready() && address + length
                <= FLASH_TOTAL_SIZE as u32,
            old(self).spec_ready() && address < FLASH_TOTAL_SIZE as u32 && address + length
                <= FLASH_TOTAL_SIZE as u32 ==> (r is Ok || r == Err::<Vec<u8>, FlashDriverError>(
                FlashDriverError::SpiError,
            )),
            final(self).spec_ready() == old(self).spec_ready(),
    {
        if !self.initialized {
            return Err(FlashDriverError::NotInitialized);
        }
        if address >= FLASH_TOTAL_SIZE as u32 {
            return Err(FlashDriverError::InvalidAddress);
        }
        if length as u64 > (FLASH_TOTAL_SIZE as u64) - (address as u64) {
            return Err(FlashDriverError::InvalidSize);
        }
        let mut tx: Vec<u8> = Vec::new();
        tx.push(CMD_READ_DATA);
        tx.push(#[verifier::truncate] ((address >> 16) as u8));
        tx.push(#[verifier::truncate] ((address >> 8) as u8));
        tx.push(#[verifier::truncate] (address as u8));
        match self.link.exchange(&tx, length) {
            Ok(rx) => Ok(rx),
            Err(_) => Err(FlashDriverError::SpiError),
        }
    }
}

} // verus!
