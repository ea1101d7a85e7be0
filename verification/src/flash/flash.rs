//! W25Q128JV driver logic: the SPI frames of each instruction and the
//! decisions taken on the device's answers.
//!
//! The bus transfers and delays themselves are carried out by the firmware.
use vstd::prelude::*;
use super::reg::{Command, SR1_BUSY, PAGE_SIZE, JEDEC_ID};

verus! {

/// Errors of the flash driver: a bus error, or a device whose JEDEC identity
/// is not that of a W25Q128JV.
#[derive(Debug)]
pub enum FlashError<E> {
    Spi(E),
    InvalidDevice,
}

/// A W25Q128JV on an SPI bus.
pub struct W25Q128<SPI> {
    spi: SPI,
}

impl<SPI> W25Q128<SPI> {
    /// The bus the device sits on.
    pub closed spec fn spec_spi(&self) -> SPI {
        self.spi
    }

    /// Takes ownership of the device's SPI bus.
    pub fn new(spi: SPI) -> (r: Self)
        ensures
            r.spec_spi() == spi,
    {
        Self { spi }
    }

    /// The device's SPI bus, for carrying out transfers.
    pub fn spi(&mut self) -> (r: &mut SPI)
        ensures
            *r == old(self).spec_spi(),
            final(self).spec_spi() == *final(r),
    {
        &mut self.spi
    }

    /// Gives the SPI bus back.
    pub fn release(self) -> (r: SPI)
        ensures
            r == self.spec_spi(),
    {
        self.spi
    }
}

/// The four-byte frame of an instruction followed by a 24-bit address,
/// most significant byte first.
pub open spec fn spec_address_frame(cmd: Command, address: u32) -> Seq<u8> {
    seq![
        cmd.spec_code(),
        ((address / 0x10000) % 0x100) as u8,
        ((address / 0x100) % 0x100) as u8,
        (address % 0x100) as u8,
    ]
}

/// Law: an address frame starts with the instruction, and its three
/// address bytes, read most significant first, give back the low 24 bits
/// of the address.
pub proof fn lemma_address_frame_roundtrip(cmd: Command, address: u32)
    ensures
        spec_address_frame(cmd, address).len() == 4,
        spec_address_frame(cmd, address)[0] == cmd.spec_code(),
        spec_address_frame(cmd, address)[1] * 0x10000 + spec_address_frame(cmd, address)[2]
            * 0x100 + spec_address_frame(cmd, address)[3] == address % 0x1000000,
{
    let f = spec_address_frame(cmd, address);
    let a = address as int;
    assert(f[1] == (a / 0x10000) % 0x100);
    assert(f[2] == (a / 0x100) % 0x100);
    assert(f[3] == a % 0x100);
    assert(((a / 0x10000) % 0x100) * 0x10000 + ((a / 0x100) % 0x100) * 0x100 + a % 0x100
        == a % 0x1000000) by (nonlinear_arith)
        requires
            0 <= a,
    ;
}

/// An instruction with a 24-bit address; bits 24 to 31 of `address` are
/// not sent.
pub fn address_frame(cmd: Command, address: u32) -> (r: [u8; 4])
    ensures
        r@ == spec_address_frame(cmd, address),
{
    let hi: u8 = (address >> 16u32) as u8;
    let mid: u8 = (address >> 8u32) as u8;
    let lo: u8 = address as u8;
    assert(hi == ((address / 0x10000) % 0x100) as u8) by (bit_vector)
        requires
            hi == (address >> 16u32) as u8,
    ;
    assert(mid == ((address / 0x100) % 0x100) as u8) by (bit_vector)
        requires
            mid == (address >> 8u32) as u8,
    ;
    assert(lo == (address % 0x100) as u8) by (bit_vector)
        requires
            lo == address as u8,
    ;
    let r = [cmd.code(), hi, mid, lo];
    assert(r@ =~= spec_address_frame(cmd, address));
    r
}

/// The frame that starts reading data at `address`.
pub fn read_frame(address: u32) -> (r: [u8; 4])
    ensures
        r@ == spec_address_frame(Command::ReadData, address),
{
    address_frame(Command::ReadData, address)
}

/// The frame that starts programming `data_len` bytes at `address`; a page
/// program writes at most one page.
pub fn page_program_frame(address: u32, data_len: usize) -> (r: [u8; 4])
    requires
        data_len <= PAGE_SIZE,
    ensures
        r@ == spec_address_frame(Command::PageProgram, address),
{
    address_frame(Command::PageProgram, address)
}

/// The frame that erases the 4 KiB sector holding `address`.
pub fn erase_sector_frame(address: u32) -> (r: [u8; 4])
    ensures
        r@ == spec_address_frame(Command::SectorErase4K, address),
{
    address_frame(Command::SectorErase4K, address)
}

/// The frame that enables writes.
pub fn write_enable_frame() -> (r: [u8; 1])
    ensures
        r@ == seq![Command::WriteEnable.spec_code()],
{
    let r = [Command::WriteEnable.code()];
    assert(r@ =~= seq![Command::WriteEnable.spec_code()]);
    r
}

/// The frame that reads status register 1: the instruction, then a byte that
/// clocks the register out.
pub fn read_status1_frame() -> (r: [u8; 2])
    ensures
        r@ == seq![Command::ReadStatus1.spec_code(), 0u8],
{
    let r = [Command::ReadStatus1.code(), 0u8];
    assert(r@ =~= seq![Command::ReadStatus1.spec_code(), 0u8]);
    r
}

/// The frame that asks for the JEDEC identity.
pub fn jedec_id_frame() -> (r: [u8; 1])
    ensures
        r@ == seq![Command::JedecId.spec_code()],
{
    let r = [Command::JedecId.code()];
    assert(r@ =~= seq![Command::JedecId.spec_code()]);
    r
}

/// The two frames of a software reset: reset-enable, then reset.
pub fn reset_frames() -> (r: ([u8; 1], [u8; 1]))
    ensures
        r.0@ == seq![Command::ResetEnable.spec_code()],
        r.1@ == seq![Command::Reset.spec_code()],
{
    let enable = [Command::ResetEnable.code()];
    let reset = [Command::Reset.code()];
    assert(enable@ =~= seq![Command::ResetEnable.spec_code()]);
    assert(reset@ =~= seq![Command::Reset.spec_code()]);
    (enable, reset)
}

/// True when status register 1 reports an erase or program in progress.
pub open spec fn spec_is_busy(status: u8) -> bool {
    status % 2 == 1
}

/// Law: the device is busy exactly when bit 0 (BUSY) of status register 1
/// is set; the other status bits do not matter.
pub proof fn lemma_busy_bit(status: u8, other: u8)
    ensures
        spec_is_busy(status) <==> status & 0x01u8 == 0x01u8,
        spec_is_busy(status) == spec_is_busy((status & 0x01u8) | (other & 0xFEu8)),
{
    let s2 = (status & 0x01u8) | (other & 0xFEu8);
    assert((status & 0x01u8 == 0x01u8) == (status % 2 == 1) && (s2 % 2 == 1) == (status % 2
        == 1)) by (bit_vector)
        requires
            s2 == (status & 0x01u8) | (other & 0xFEu8),
    ;
}

/// Whether the device is still busy, from the value of status register 1.
pub fn is_busy(status: u8) -> (r: bool)
    ensures
        r == spec_is_busy(status),
{
    let r = (status & SR1_BUSY) != 0;
    assert(((status & 1u8) != 0) == (status % 2 == 1)) by (bit_vector);
    r
}

/// The status byte in a status-register read: the byte clocked out after
/// the instruction.
pub fn status_from_response(response: &[u8; 2]) -> (r: u8)
    ensures
        r == response@[1],
{
    response[1]
}

/// Checks the JEDEC identity the device reported.
pub fn verify_jedec_id<E>(id: &[u8; 3]) -> (r: Result<(), FlashError<E>>)
    ensures
        r is Ok <==> id@ == JEDEC_ID@,
        r is Err ==> r->Err_0 is InvalidDevice,
{
    if id[0] == 0xEF && id[1] == 0x40 && id[2] == 0x18 {
        assert(id@ =~= JEDEC_ID@);
        Ok(())
    } else {
        assert(id@ != JEDEC_ID@ ) by {
            if id@ == JEDEC_ID@ {
                assert(id@[0] == JEDEC_ID@[0]);
            }
        }
        Err(FlashError::InvalidDevice)
    }
}

} // verus!
