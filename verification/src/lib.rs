//! A verified flash-programming protocol stack: a binary packet/response wire
//! format with CRC-32 integrity checking, a byte-stream framer that recovers
//! packet boundaries from a chunked transport, a flash device driver that
//! sequences chip commands within page and sector boundaries under a bounded
//! busy-poll, a command dispatcher that binds parsed packets to driver
//! operations, and a host transport layer that chunks large transfers and
//! verifies them by readback, content hash, or block checksums.

pub mod crc32;
pub mod dispatch;
pub mod driver;
pub mod framer;
pub mod host;
pub mod lebytes;
pub mod manager;
pub mod plan;
pub mod sim;
pub mod wire;

pub use crc32::crc32;
pub use dispatch::{decode_flash_info, encode_flash_info, handle_packet, ProtocolHandler};
pub use driver::{
    FlashDriver, FlashDriverError, FlashInfo, SpiFault, SpiLink, StatusRegisters,
};
pub use framer::{Framer, FRAMER_BUFFER_CAP};
pub use host::{ChannelError, content_hash, FlashCommands, HostError, PacketChannel};
pub use manager::{SafeFlashError, SafeFlashManager};
pub use plan::{plan_chunks, plan_erase_sectors, WriteChunk};
pub use sim::{SimChannel, SimFlash};
pub use wire::{
    Command, DecodeError, Packet, PacketView, Response, ResponseView, Status, FLASH_PAGE_SIZE,
    FLASH_SECTOR_SIZE, FLASH_TOTAL_SIZE, MAX_PAYLOAD_SIZE, PACKET_MAGIC, RESPONSE_MAGIC,
};
