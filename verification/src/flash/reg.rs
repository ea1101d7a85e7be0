//! W25Q128JV instruction set, status bits and geometry.
use vstd::prelude::*;

verus! {

/// Standard SPI instructions.
#[derive(Debug, Clone, Copy, PartialEq, Eq, Structural)]
pub enum Command {
    WriteEnable,
    WriteDisable,
    ReadStatus1,
    ReadStatus2,
    ReadStatus3,
    ReadData,
    FastRead,
    PageProgram,
    SectorErase4K,
    BlockErase32K,
    BlockErase64K,
    ChipErase,
    JedecId,
    ResetEnable,
    Reset,
}

impl Command {
    /// The instruction byte.
    pub open spec fn spec_code(&self) -> u8 {
        match self {
            Command::WriteEnable => 0x06,
            Command::WriteDisable => 0x04,
            Command::ReadStatus1 => 0x05,
            Command::ReadStatus2 => 0x35,
            Command::ReadStatus3 => 0x15,
            Command::ReadData => 0x03,
            Command::FastRead => 0x0B,
            Command::PageProgram => 0x02,
            Command::SectorErase4K => 0x20,
            Command::BlockErase32K => 0x52,
            Command::BlockErase64K => 0xD8,
            Command::ChipErase => 0xC7,
            Command::JedecId => 0x9F,
            Command::ResetEnable => 0x66,
            Command::Reset => 0x99,
        }
    }

    /// The instruction byte.
    pub fn code(&self) -> (r: u8)
        ensures
            r == self.spec_code(),
    {
        match self {
            Command::WriteEnable => 0x06,
            Command::WriteDisable => 0x04,
            Command::ReadStatus1 => 0x05,
            Command::ReadStatus2 => 0x35,
            Command::ReadStatus3 => 0x15,
            Command::ReadData => 0x03,
            Command::FastRead => 0x0B,
            Command::PageProgram => 0x02,
            Command::SectorErase4K => 0x20,
            Command::BlockErase32K => 0x52,
            Command::BlockErase64K => 0xD8,
            Command::ChipErase => 0xC7,
            Command::JedecId => 0x9F,
            Command::ResetEnable => 0x66,
            Command::Reset => 0x99,
        }
    }
}

/// Status register 1, bit 0: an erase or program is in progress.
pub const SR1_BUSY: u8 = 1;

/// Status register 1, bit 1: writes are enabled.
pub const SR1_WEL: u8 = 2;

/// Bytes in a page, the most one program instruction writes.
pub const PAGE_SIZE: usize = 256;

/// Bytes in a sector, the least one erase instruction clears.
pub const SECTOR_SIZE: usize = 4096;

/// JEDEC identity of the W25Q128JV: manufacturer, memory type, capacity.
pub const JEDEC_ID: [u8; 3] = [0xEF, 0x40, 0x18];

} // verus!
