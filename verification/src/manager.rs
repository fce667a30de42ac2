//! The session manager around the flash driver: a one-shot probe that leaves
//! the device either available (with its information cached for the session)
//! or unavailable, after which every operation fails fast with
//! `NotInitialized` and no further bus traffic is attempted.

use vstd::prelude::*;
use crate::driver::{FlashDriver, FlashDriverError, FlashInfo, SpiLink, StatusRegisters};
use crate::wire::{FLASH_PAGE_SIZE, FLASH_SECTOR_SIZE, FLASH_TOTAL_SIZE};

verus! {

/// Largest number of bytes a single manager-level read returns; the
/// dispatcher chunks larger requests.
pub const MAX_SINGLE_READ: usize = 256;

/// Errors a manager operation can end with.
#[derive(Debug, Clone, Copy, PartialEq, Eq, Structural)]
pub enum SafeFlashError {
    /// The device is not available; no operation was attempted.
    NotInitialized,
    /// The probe failed and the device was marked unavailable.
    InitializationFailed,
    /// The driver reported a bus or validation failure.
    SpiError,
    /// The driver's busy-poll gave up.
    Timeout,
}

/// Maps a driver error onto the manager's smaller error set: timeouts stay
/// timeouts, everything else surfaces as an SPI-level failure.
pub open spec fn spec_map_driver_error(e: FlashDriverError) -> SafeFlashError {
    match e {
        FlashDriverError::Timeout => SafeFlashError::Timeout,
        _ => SafeFlashError::SpiError,
    }
}

/// Returns the manager error a driver error maps to.
pub fn map_driver_error(e: FlashDriverError) -> (r: SafeFlashError)
    ensures
        r == spec_map_driver_error(e),
{
    match e {
        FlashDriverError::Timeout => SafeFlashError::Timeout,
        _ => SafeFlashError::SpiError,
    }
}

/// The manager: a driver plus the probe outcome and the cached device
/// information.
pub struct SafeFlashManager<L: SpiLink> {
    driver: FlashDriver<L>,
    initialized: bool,
    flash_available: bool,
    cached_info: FlashInfo,
}

impl<L: SpiLink> SafeFlashManager<L> {
    /// Whether the probe has run, with either outcome.
    pub closed spec fn spec_initialized(&self) -> bool {
        self.initialized
    }

    /// Whether the device answered the probe and operations may proceed.
    pub closed spec fn spec_available(&self) -> bool {
        self.initialized && self.flash_available
    }

    /// The device information cached by the probe.
    pub closed spec fn spec_cached_info(&self) -> FlashInfo {
        self.cached_info
    }

    /// Creates a manager over the given port; nothing touches the bus until
    /// `try_initialize`.
    pub fn new(link: L) -> (r: SafeFlashManager<L>)
        ensures
            !r.spec_initialized(),
            !r.spec_available(),
    {
        SafeFlashManager {
            driver: FlashDriver::new(link),
            initialized: false,
            flash_available: false,
            cached_info: FlashInfo { jedec_id: 0, total_size: 0, page_size: 0, sector_size: 0 },
        }
    }

    /// Probes the device once: wake it, read its identifier, and cache its
    /// information. A second call reports the recorded outcome without
    /// touching the bus again. After success the geometry of the cached
    /// information is the device's fixed geometry.
    pub fn try_initialize(&mut self) -> (r: Result<(), SafeFlashError>)
        ensures
            final(self).spec_initialized(),
            r is Ok <==> final(self).spec_available(),
            old(self).spec_initialized() ==> final(self).spec_available() == old(
                self,
            ).spec_available() && final(self).spec_cached_info() == old(self).spec_cached_info(),
            r is Err ==> r == Err::<(), SafeFlashError>(SafeFlashError::InitializationFailed),
            !old(self).spec_initialized() && r is Ok ==> final(self).spec_cached_info().total_size
                == FLASH_TOTAL_SIZE as u32 && final(self).spec_cached_info().page_size
                == FLASH_PAGE_SIZE as u32 && final(self).spec_cached_info().sector_size
                == FLASH_SECTOR_SIZE as u32 && final(self).spec_cached_info().jedec_id
                < 0x1000000,
    {
        if self.initialized {
            if self.flash_available {
                return Ok(());
            } else {
                return Err(SafeFlashError::InitializationFailed);
            }
        }
        match self.driver.init() {
            Ok(_) => {},
            Err(_) => {
                self.initialized = true;
                self.flash_available = false;
                return Err(SafeFlashError::InitializationFailed);
            },
        }
        match self.driver.get_info() {
            Ok(info) => {
                self.cached_info = info;
                self.initialized = true;
                self.flash_available = true;
                Ok(())
            },
            Err(_) => {
                self.initialized = true;
                self.flash_available = false;
                Err(SafeFlashError::InitializationFailed)
            },
        }
    }

    /// Whether the device is available for operations.
    pub fn is_available(&self) -> (r: bool)
        ensures
            r == self.spec_available(),
    {
        self.initialized && self.flash_available
    }

    /// Returns the device information cached by the probe; it never touches
    /// the bus, so on an available device it always succeeds.
    pub fn get_flash_info(&mut self) -> (r: Result<FlashInfo, SafeFlashError>)
        ensures
            *final(self) == *old(self),
            !old(self).spec_available() <==> r == Err::<FlashInfo, SafeFlashError>(
                SafeFlashError::NotInitialized,
            ),
            old(self).spec_available() <==> r == Ok::<FlashInfo, SafeFlashError>(
                old(self).spec_cached_info(),
            ),
    {
        if !self.is_available() {
            return Err(SafeFlashError::NotInitialized);
        }
        Ok(self.cached_info)
    }

    /// Reads status register 1.
    pub fn read_status(&mut self) -> (r: Result<u8, SafeFlashError>)
        ensures
            !old(self).spec_available() <==> r == Err::<u8, SafeFlashError>(
                SafeFlashError::NotInitialized,
            ),
            r is Err ==> (r == Err::<u8, SafeFlashError>(SafeFlashError::NotInitialized) || r
                == Err::<u8, SafeFlashError>(SafeFlashError::SpiError) || r == Err::<
                u8,
                SafeFlashError,
            >(SafeFlashError::Timeout)),
            final(self).spec_available() == old(self).spec_available(),
            final(self).spec_cached_info() == old(self).spec_cached_info(),
    {
        if !self.is_available() {
            return Err(SafeFlashError::NotInitialized);
        }
        match self.driver.read_status() {
            Ok(s) => Ok(s),
            Err(e) => Err(map_driver_error(e)),
        }
    }

    /// Reads up to `MAX_SINGLE_READ` bytes starting at `address`: a larger
    /// request is clipped to that cap, and the dispatcher is expected to
    /// chunk larger reads.
    pub fn read_data(&mut self, address: u32, size: u32) -> (r: Result<Vec<u8>, SafeFlashError>)
        ensures
            !old(self).spec_available() <==> r == Err::<Vec<u8>, SafeFlashError>(
                SafeFlashError::NotInitialized,
            ),
            r matches Ok(v) ==> v@.len() == if size as int <= MAX_SINGLE_READ as int {
                size as int
            } else {
                MAX_SINGLE_READ as int
            },
            ({
                let actual = if size as int <= MAX_SINGLE_READ as int {
                    size as int
                } else {
                    MAX_SINGLE_READ as int
                };
                old(self).spec_available() && (address >= FLASH_TOTAL_SIZE || address + actual
                    > FLASH_TOTAL_SIZE) ==> r == Err::<Vec<u8>, SafeFlashError>(
                    SafeFlashError::SpiError,
                )
            }),
            r is Err ==> (r == Err::<Vec<u8>, SafeFlashError>(SafeFlashError::NotInitialized) || r
                == Err::<Vec<u8>, SafeFlashError>(SafeFlashError::SpiError) || r == Err::<
                Vec<u8>,
                SafeFlashError,
            >(SafeFlashError::Timeout)),
            final(self).spec_available() == old(self).spec_available(),
            final(self).spec_cached_info() == old(self).spec_cached_info(),
    {
        if !self.is_available() {
            return Err(SafeFlashError::NotInitialized);
        }
        let actual_size = if size as usize > MAX_SINGLE_READ {
            MAX_SINGLE_READ
        } else {
            size as usize
        };
        match self.driver.read_data(address, actual_size) {
            Ok(v) => Ok(v),
            Err(e) => Err(map_driver_error(e)),
        }
    }

    /// Writes `data` starting at `address`, page by page.
    pub fn write_data(&mut self, address: u32, data: &[u8]) -> (r: Result<(), SafeFlashError>)
        ensures
            !old(self).spec_available() <==> r == Err::<(), SafeFlashError>(
                SafeFlashError::NotInitialized,
            ),
            old(self).spec_available() && (address >= FLASH_TOTAL_SIZE || address + data@.len()
                > FLASH_TOTAL_SIZE) ==> r == Err::<(), SafeFlashError>(SafeFlashError::SpiError),
            r is Err ==> (r == Err::<(), SafeFlashError>(SafeFlashError::NotInitialized) || r
                == Err::<(), SafeFlashError>(SafeFlashError::SpiError) || r == Err::<
                (),
                SafeFlashError,
            >(SafeFlashError::Timeout)),
            final(self).spec_available() == old(self).spec_available(),
            final(self).spec_cached_info() == old(self).spec_cached_info(),
    {
        if !self.is_available() {
            return Err(SafeFlashError::NotInitialized);
        }
        match self.driver.write_data(address, data) {
            Ok(_) => Ok(()),
            Err(e) => Err(map_driver_error(e)),
        }
    }

    /// Erases the sector at `address` (which must be sector-aligned and in
    /// bounds, else the driver refuses and the failure surfaces as
    /// `SpiError`).
    pub fn erase_sector(&mut self, address: u32) -> (r: Result<(), SafeFlashError>)
        ensures
            !old(self).spec_available() <==> r == Err::<(), SafeFlashError>(
                SafeFlashError::NotInitialized,
            ),
            old(self).spec_available() && ((address as int) % (FLASH_SECTOR_SIZE as int) != 0
                || address >= FLASH_TOTAL_SIZE) ==> r == Err::<(), SafeFlashError>(
                SafeFlashError::SpiError,
            ),
            r is Err ==> (r == Err::<(), SafeFlashError>(SafeFlashError::NotInitialized) || r
                == Err::<(), SafeFlashError>(SafeFlashError::SpiError) || r == Err::<
                (),
                SafeFlashError,
            >(SafeFlashError::Timeout)),
            final(self).spec_available() == old(self).spec_available(),
            final(self).spec_cached_info() == old(self).spec_cached_info(),
    {
        if !self.is_available() {
            return Err(SafeFlashError::NotInitialized);
        }
        match self.driver.erase_sector(address) {
            Ok(_) => Ok(()),
            Err(e) => Err(map_driver_error(e)),
        }
    }

    /// Reads all three status registers for field debugging; a read-only
    /// diagnostic that never mutates device state.
    pub fn diagnose_flash_protection(&mut self) -> (r: Result<StatusRegisters, SafeFlashError>)
        ensures
            !old(self).spec_available() <==> r == Err::<StatusRegisters, SafeFlashError>(
                SafeFlashError::NotInitialized,
            ),
            r is Err ==> (r == Err::<StatusRegisters, SafeFlashError>(
                SafeFlashError::NotInitialized,
            ) || r == Err::<StatusRegisters, SafeFlashError>(SafeFlashError::SpiError) || r
                == Err::<StatusRegisters, SafeFlashError>(SafeFlashError::Timeout)),
            final(self).spec_available() == old(self).spec_available(),
            final(self).spec_cached_info() == old(self).spec_cached_info(),
    {
        if !self.is_available() {
            return Err(SafeFlashError::NotInitialized);
        }
        match self.driver.read_status_registers() {
            Ok(regs) => Ok(regs),
            Err(e) => Err(map_driver_error(e)),
        }
    }
}

} // verus!
