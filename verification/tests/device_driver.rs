//! Driver, planning and manager tests: page-bounded write chunking, minimal
//! sector cover for erases, the busy-poll timeout, and fail-fast behaviour
//! of an unavailable device.

use flash_protocol::{
    plan_chunks, plan_erase_sectors, FlashDriver, FlashDriverError, SafeFlashError,
    SafeFlashManager, SimFlash, FLASH_PAGE_SIZE, FLASH_SECTOR_SIZE, FLASH_TOTAL_SIZE,
};

#[test]
fn write_chunking_respects_page_boundaries() {
    // 5000 bytes starting at a non-page-aligned address.
    let address = 0x1010u32;
    let len = 5000u32;
    let page = FLASH_PAGE_SIZE as u32;
    let chunks = plan_chunks(address, len, page);

    assert_eq!(chunks[0].addr, address);
    // First chunk runs to the next page boundary.
    assert_eq!(chunks[0].len, page - (address % page));
    let mut covered = 0u32;
    let mut expected_addr = address;
    for chunk in &chunks {
        assert!(chunk.len > 0);
        assert_eq!(chunk.addr, expected_addr, "gap or overlap at {:#x}", expected_addr);
        // No chunk crosses a page boundary.
        assert!(chunk.addr % page + chunk.len <= page);
        expected_addr += chunk.len;
        covered += chunk.len;
    }
    assert_eq!(covered, len);
    assert_eq!(expected_addr, address + len);
}

#[test]
fn write_chunking_aligned_and_empty() {
    let page = FLASH_PAGE_SIZE as u32;
    assert!(plan_chunks(0x2000, 0, page).is_empty());
    let chunks = plan_chunks(0x2000, 512, page);
    assert_eq!(chunks.len(), 2);
    assert_eq!((chunks[0].addr, chunks[0].len), (0x2000, 256));
    assert_eq!((chunks[1].addr, chunks[1].len), (0x2100, 256));
}

#[test]
fn erase_plan_is_minimal_cover() {
    let sector = FLASH_SECTOR_SIZE as u32;
    // A range straddling three sectors, unaligned at both ends.
    let sectors = plan_erase_sectors(0x1800, 2 * sector, sector);
    assert_eq!(sectors, vec![0x1000, 0x2000, 0x3000]);
    // An aligned single-sector range needs exactly one erase.
    assert_eq!(plan_erase_sectors(0x3000, sector, sector), vec![0x3000]);
    // A one-byte range needs exactly the sector that holds it.
    assert_eq!(plan_erase_sectors(0x4FFF, 1, sector), vec![0x4000]);
    // An empty range needs nothing.
    assert!(plan_erase_sectors(0x1234, 0, sector).is_empty());
}

#[test]
fn driver_reads_back_what_it_wrote() {
    let sim = SimFlash::new(0xEF4018, 64 * 1024);
    let mut driver = FlashDriver::new(sim);
    driver.init().unwrap();
    let data: Vec<u8> = (0..200u32).map(|i| (i * 7 % 251) as u8).collect();
    driver.write_data(0x130, &data).unwrap();
    let back = driver.read_data(0x130, data.len()).unwrap();
    assert_eq!(back, data);
}

#[test]
fn driver_survives_busy_polls() {
    let mut sim = SimFlash::new(0xEF4018, 64 * 1024);
    sim.set_busy_per_op(5);
    let mut driver = FlashDriver::new(sim);
    driver.init().unwrap();
    driver.write_data(0x0, &[1, 2, 3]).unwrap();
    assert_eq!(driver.read_data(0x0, 3).unwrap(), vec![1, 2, 3]);
}

#[test]
fn busy_poll_timeout_fails_instead_of_hanging() {
    let mut sim = SimFlash::new(0xEF4018, 64 * 1024);
    sim.set_stuck_busy();
    let mut driver = FlashDriver::new(sim);
    driver.init().unwrap();
    let result = driver.write_data(0x0, &[0xAA]);
    assert_eq!(result, Err(FlashDriverError::Timeout));
    let erase = driver.erase_sector(0x0);
    assert_eq!(erase, Err(FlashDriverError::Timeout));
}

#[test]
fn driver_validates_arguments() {
    let sim = SimFlash::new(0xEF4018, 64 * 1024);
    let mut driver = FlashDriver::new(sim);
    assert_eq!(driver.read_status(), Err(FlashDriverError::NotInitialized));
    assert_eq!(
        driver.write_data(0, &[1]),
        Err(FlashDriverError::NotInitialized)
    );
    driver.init().unwrap();
    assert_eq!(
        driver.erase_sector(0x100),
        Err(FlashDriverError::InvalidAddress)
    );
    assert_eq!(
        driver.erase_sector(FLASH_TOTAL_SIZE as u32),
        Err(FlashDriverError::InvalidAddress)
    );
    assert_eq!(
        driver.write_data(FLASH_TOTAL_SIZE as u32, &[1]),
        Err(FlashDriverError::InvalidAddress)
    );
    assert_eq!(
        driver.write_data(FLASH_TOTAL_SIZE as u32 - 1, &[1, 2]),
        Err(FlashDriverError::InvalidSize)
    );
    assert_eq!(
        driver.write_page(0x10, &[0u8; 300]),
        Err(FlashDriverError::InvalidSize)
    );
    assert_eq!(
        driver.write_page(0x1F0, &[0u8; 32]),
        Err(FlashDriverError::InvalidSize)
    );
    assert_eq!(
        driver.read_data(FLASH_TOTAL_SIZE as u32, 1),
        Err(FlashDriverError::InvalidAddress)
    );
}

#[test]
fn driver_erase_resets_sector() {
    let sim = SimFlash::new(0xEF4018, 64 * 1024);
    let mut driver = FlashDriver::new(sim);
    driver.init().unwrap();
    driver.write_data(0x1000, &[0x11; 16]).unwrap();
    driver.erase_range(0x1000, 16).unwrap();
    let back = driver.read_data(0x1000, 16).unwrap();
    assert_eq!(back, vec![0xFF; 16]);
}

#[test]
fn manager_gates_everything_on_availability() {
    let sim = SimFlash::new(0xEF4018, 64 * 1024);
    let mut manager = SafeFlashManager::new(sim);
    assert!(!manager.is_available());
    assert_eq!(
        manager.read_status(),
        Err(SafeFlashError::NotInitialized)
    );
    assert_eq!(
        manager.write_data(0, &[1]),
        Err(SafeFlashError::NotInitialized)
    );
    assert!(manager.read_data(0, 4).is_err());
    assert!(manager.erase_sector(0).is_err());
    assert!(manager.diagnose_flash_protection().is_err());
    manager.try_initialize().unwrap();
    assert!(manager.is_available());
    let info = manager.get_flash_info().unwrap();
    assert_eq!(info.jedec_id, 0xEF4018);
    assert_eq!(info.total_size, FLASH_TOTAL_SIZE as u32);
    assert_eq!(info.page_size, FLASH_PAGE_SIZE as u32);
    assert_eq!(info.sector_size, FLASH_SECTOR_SIZE as u32);
}

#[test]
fn manager_caps_single_reads() {
    let sim = SimFlash::new(0xEF4018, 64 * 1024);
    let mut manager = SafeFlashManager::new(sim);
    manager.try_initialize().unwrap();
    let small = manager.read_data(0, 100).unwrap();
    assert_eq!(small.len(), 100);
    let capped = manager.read_data(0, 4096).unwrap();
    assert_eq!(capped.len(), 256);
}

#[test]
fn manager_diagnostics_report_registers() {
    let sim = SimFlash::new(0xEF4018, 64 * 1024);
    let mut manager = SafeFlashManager::new(sim);
    manager.try_initialize().unwrap();
    let regs = manager.diagnose_flash_protection().unwrap();
    // An idle simulated chip reports no busy bit and no write-enable latch.
    assert_eq!(regs.sr1 & 0x03, 0);
}
