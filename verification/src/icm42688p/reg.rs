//! ICM-42688-P register map: the register banks and the address of each
//! register within its bank.
use vstd::prelude::*;

verus! {

/// Register Bank number.
#[derive(Debug, Clone, Copy, PartialEq, Eq, Structural)]
pub enum BankNum {
    Bank0,
    Bank1,
    Bank2,
    Bank3,
    Bank4,
}

impl BankNum {
    /// The bank number written to the bank-select register.
    pub open spec fn spec_number(&self) -> u8 {
        match self {
            BankNum::Bank0 => 0x00,
            BankNum::Bank1 => 0x01,
            BankNum::Bank2 => 0x02,
            BankNum::Bank3 => 0x03,
            BankNum::Bank4 => 0x04,
        }
    }

    /// The bank number written to the bank-select register.
    pub fn number(&self) -> (r: u8)
        ensures
            r == self.spec_number(),
    {
        match self {
            BankNum::Bank0 => 0x00,
            BankNum::Bank1 => 0x01,
            BankNum::Bank2 => 0x02,
            BankNum::Bank3 => 0x03,
            BankNum::Bank4 => 0x04,
        }
    }
}

/// Bank 0 Registers.
#[derive(Debug, Clone, Copy, PartialEq, Eq, Structural)]
pub enum Bank0 {
    DeviceConfig,
    DriveConfig,
    TempData1,
    TempData0,
    AccelDataX1,
    AccelDataX0,
    AccelDataY1,
    AccelDataY0,
    AccelDataZ1,
    AccelDataZ0,
    AccelConfig0,
    AccelConfig1,
    GyroDataX1,
    GyroDataX0,
    GyroDataY1,
    GyroDataY0,
    GyroDataZ1,
    GyroDataZ0,
    GyroConfig0,
    GyroConfig1,
    TMSTFsyncH,
    TMSTFsyncL,
    TMSTConfig,
    FIFOCountH,
    FIFOCountL,
    FIFOData,
    FIFOConfig,
    FIFOConfig1,
    FIFOConfig2,
    FIFOConfig3,
    FIFOLostPKT0,
    FIFOLostPKT1,
    ApexData0,
    ApexData1,
    ApexData2,
    ApexData3,
    ApexData4,
    ApexData5,
    ApexConfig,
    IntStatus,
    IntStatus2,
    IntStatus3,
    IntConfig,
    IntConfig0,
    IntConfig1,
    IntSource0,
    IntSource1,
    IntSource3,
    IntSource4,
    IntFConfig0,
    IntFConfig1,
    SignalPathReset,
    PwrMGMT0,
    GyroAccelConfig0,
    SMDConfig,
    FSyncConfig,
    SelfTestConfig,
    WhoAmI,
    RegBankSel,
}

impl Bank0 {
    /// The register address within the bank.
    pub open spec fn spec_addr(&self) -> u8 {
        match self {
            Bank0::DeviceConfig => 0x11,
            Bank0::DriveConfig => 0x13,
            Bank0::TempData1 => 0x1d,
            Bank0::TempData0 => 0x1e,
            Bank0::AccelDataX1 => 0x1f,
            Bank0::AccelDataX0 => 0x20,
            Bank0::AccelDataY1 => 0x21,
            Bank0::AccelDataY0 => 0x22,
            Bank0::AccelDataZ1 => 0x23,
            Bank0::AccelDataZ0 => 0x24,
            Bank0::AccelConfig0 => 0x50,
            Bank0::AccelConfig1 => 0x53,
            Bank0::GyroDataX1 => 0x25,
            Bank0::GyroDataX0 => 0x26,
            Bank0::GyroDataY1 => 0x27,
            Bank0::GyroDataY0 => 0x28,
            Bank0::GyroDataZ1 => 0x29,
            Bank0::GyroDataZ0 => 0x2a,
            Bank0::GyroConfig0 => 0x4f,
            Bank0::GyroConfig1 => 0x51,
            Bank0::TMSTFsyncH => 0x2b,
            Bank0::TMSTFsyncL => 0x2c,
            Bank0::TMSTConfig => 0x54,
            Bank0::FIFOCountH => 0x2e,
            Bank0::FIFOCountL => 0x2f,
            Bank0::FIFOData => 0x30,
            Bank0::FIFOConfig => 0x16,
            Bank0::FIFOConfig1 => 0x5f,
            Bank0::FIFOConfig2 => 0x60,
            Bank0::FIFOConfig3 => 0x61,
            Bank0::FIFOLostPKT0 => 0x6c,
            Bank0::FIFOLostPKT1 => 0x6d,
            Bank0::ApexData0 => 0x31,
            Bank0::ApexData1 => 0x32,
            Bank0::ApexData2 => 0x33,
            Bank0::ApexData3 => 0x34,
            Bank0::ApexData4 => 0x35,
            Bank0::ApexData5 => 0x36,
            Bank0::ApexConfig => 0x56,
            Bank0::IntStatus => 0x2d,
            Bank0::IntStatus2 => 0x37,
            Bank0::IntStatus3 => 0x38,
            Bank0::IntConfig => 0x14,
            Bank0::IntConfig0 => 0x63,
            Bank0::IntConfig1 => 0x64,
            Bank0::IntSource0 => 0x65,
            Bank0::IntSource1 => 0x66,
            Bank0::IntSource3 => 0x68,
            Bank0::IntSource4 => 0x69,
            Bank0::IntFConfig0 => 0x4c,
            Bank0::IntFConfig1 => 0x4d,
            Bank0::SignalPathReset => 0x4b,
            Bank0::PwrMGMT0 => 0x4e,
            Bank0::GyroAccelConfig0 => 0x52,
            Bank0::SMDConfig => 0x57,
            Bank0::FSyncConfig => 0x62,
            Bank0::SelfTestConfig => 0x70,
            Bank0::WhoAmI => 0x75,
            Bank0::RegBankSel => 0x76,
        }
    }

    /// The register address within the bank.
    pub fn addr(&self) -> (r: u8)
        ensures
            r == self.spec_addr(),
    {
        match self {
            Bank0::DeviceConfig => 0x11,
            Bank0::DriveConfig => 0x13,
            Bank0::TempData1 => 0x1d,
            Bank0::TempData0 => 0x1e,
            Bank0::AccelDataX1 => 0x1f,
            Bank0::AccelDataX0 => 0x20,
            Bank0::AccelDataY1 => 0x21,
            Bank0::AccelDataY0 => 0x22,
            Bank0::AccelDataZ1 => 0x23,
            Bank0::AccelDataZ0 => 0x24,
            Bank0::AccelConfig0 => 0x50,
            Bank0::AccelConfig1 => 0x53,
            Bank0::GyroDataX1 => 0x25,
            Bank0::GyroDataX0 => 0x26,
            Bank0::GyroDataY1 => 0x27,
            Bank0::GyroDataY0 => 0x28,
            Bank0::GyroDataZ1 => 0x29,
            Bank0::GyroDataZ0 => 0x2a,
            Bank0::GyroConfig0 => 0x4f,
            Bank0::GyroConfig1 => 0x51,
            Bank0::TMSTFsyncH => 0x2b,
            Bank0::TMSTFsyncL => 0x2c,
            Bank0::TMSTConfig => 0x54,
            Bank0::FIFOCountH => 0x2e,
            Bank0::FIFOCountL => 0x2f,
            Bank0::FIFOData => 0x30,
            Bank0::FIFOConfig => 0x16,
            Bank0::FIFOConfig1 => 0x5f,
            Bank0::FIFOConfig2 => 0x60,
            Bank0::FIFOConfig3 => 0x61,
            Bank0::FIFOLostPKT0 => 0x6c,
            Bank0::FIFOLostPKT1 => 0x6d,
            Bank0::ApexData0 => 0x31,
            Bank0::ApexData1 => 0x32,
            Bank0::ApexData2 => 0x33,
            Bank0::ApexData3 => 0x34,
            Bank0::ApexData4 => 0x35,
            Bank0::ApexData5 => 0x36,
            Bank0::ApexConfig => 0x56,
            Bank0::IntStatus => 0x2d,
            Bank0::IntStatus2 => 0x37,
            Bank0::IntStatus3 => 0x38,
            Bank0::IntConfig => 0x14,
            Bank0::IntConfig0 => 0x63,
            Bank0::IntConfig1 => 0x64,
            Bank0::IntSource0 => 0x65,
            Bank0::IntSource1 => 0x66,
            Bank0::IntSource3 => 0x68,
            Bank0::IntSource4 => 0x69,
            Bank0::IntFConfig0 => 0x4c,
            Bank0::IntFConfig1 => 0x4d,
            Bank0::SignalPathReset => 0x4b,
            Bank0::PwrMGMT0 => 0x4e,
            Bank0::GyroAccelConfig0 => 0x52,
            Bank0::SMDConfig => 0x57,
            Bank0::FSyncConfig => 0x62,
            Bank0::SelfTestConfig => 0x70,
            Bank0::WhoAmI => 0x75,
            Bank0::RegBankSel => 0x76,
        }
    }
}

/// Bank 1 Registers.
#[derive(Debug, Clone, Copy, PartialEq, Eq, Structural)]
pub enum Bank1 {
    SensorConfig0,
    GyroConfigStatic2,
    GyroConfigStatic3,
    GyroConfigStatic4,
    GyroConfigStatic5,
    GyroConfigStatic6,
    GyroConfigStatic7,
    GyroConfigStatic8,
    GyroConfigStatic9,
    GyroConfigStatic10,
    XGSTData,
    YGSTData,
    ZGSTData,
    TMSTVal0,
    TMSTVal1,
    TMSTVal2,
    INTFConfig4,
    INTFConfig5,
    INTFConfig6,
}

impl Bank1 {
    /// The register address within the bank.
    pub open spec fn spec_addr(&self) -> u8 {
        match self {
            Bank1::SensorConfig0 => 0x03,
            Bank1::GyroConfigStatic2 => 0x0b,
            Bank1::GyroConfigStatic3 => 0x0c,
            Bank1::GyroConfigStatic4 => 0x0d,
            Bank1::GyroConfigStatic5 => 0x0e,
            Bank1::GyroConfigStatic6 => 0x0f,
            Bank1::GyroConfigStatic7 => 0x10,
            Bank1::GyroConfigStatic8 => 0x11,
            Bank1::GyroConfigStatic9 => 0x12,
            Bank1::GyroConfigStatic10 => 0x13,
            Bank1::XGSTData => 0x5f,
            Bank1::YGSTData => 0x60,
            Bank1::ZGSTData => 0x61,
            Bank1::TMSTVal0 => 0x62,
            Bank1::TMSTVal1 => 0x63,
            Bank1::TMSTVal2 => 0x64,
            Bank1::INTFConfig4 => 0x7a,
            Bank1::INTFConfig5 => 0x7b,
            Bank1::INTFConfig6 => 0x7c,
        }
    }

    /// The register address within the bank.
    pub fn addr(&self) -> (r: u8)
        ensures
            r == self.spec_addr(),
    {
        match self {
            Bank1::SensorConfig0 => 0x03,
            Bank1::GyroConfigStatic2 => 0x0b,
            Bank1::GyroConfigStatic3 => 0x0c,
            Bank1::GyroConfigStatic4 => 0x0d,
            Bank1::GyroConfigStatic5 => 0x0e,
            Bank1::GyroConfigStatic6 => 0x0f,
            Bank1::GyroConfigStatic7 => 0x10,
            Bank1::GyroConfigStatic8 => 0x11,
            Bank1::GyroConfigStatic9 => 0x12,
            Bank1::GyroConfigStatic10 => 0x13,
            Bank1::XGSTData => 0x5f,
            Bank1::YGSTData => 0x60,
            Bank1::ZGSTData => 0x61,
            Bank1::TMSTVal0 => 0x62,
            Bank1::TMSTVal1 => 0x63,
            Bank1::TMSTVal2 => 0x64,
            Bank1::INTFConfig4 => 0x7a,
            Bank1::INTFConfig5 => 0x7b,
            Bank1::INTFConfig6 => 0x7c,
        }
    }
}

/// Bank 2 Registers.
#[derive(Debug, Clone, Copy, PartialEq, Eq, Structural)]
pub enum Bank2 {
    AccelConfigStatic2,
    AccelConfigStatic3,
    AccelConfigStatic4,
    XASTData,
    YASTData,
    ZASTData,
}

impl Bank2 {
    /// The register address within the bank.
    pub open spec fn spec_addr(&self) -> u8 {
        match self {
            Bank2::AccelConfigStatic2 => 0x03,
            Bank2::AccelConfigStatic3 => 0x04,
            Bank2::AccelConfigStatic4 => 0x05,
            Bank2::XASTData => 0x3b,
            Bank2::YASTData => 0x3c,
            Bank2::ZASTData => 0x3d,
        }
    }

    /// The register address within the bank.
    pub fn addr(&self) -> (r: u8)
        ensures
            r == self.spec_addr(),
    {
        match self {
            Bank2::AccelConfigStatic2 => 0x03,
            Bank2::AccelConfigStatic3 => 0x04,
            Bank2::AccelConfigStatic4 => 0x05,
            Bank2::XASTData => 0x3b,
            Bank2::YASTData => 0x3c,
            Bank2::ZASTData => 0x3d,
        }
    }
}

/// Bank 3 Registers.
#[derive(Debug, Clone, Copy, PartialEq, Eq, Structural)]
pub enum Bank3 {
    CLKDIV,
}

impl Bank3 {
    /// The register address within the bank.
    pub open spec fn spec_addr(&self) -> u8 {
        match self {
            Bank3::CLKDIV => 0x2a,
        }
    }

    /// The register address within the bank.
    pub fn addr(&self) -> (r: u8)
        ensures
            r == self.spec_addr(),
    {
        match self {
            Bank3::CLKDIV => 0x2a,
        }
    }
}

/// Bank 4 Registers.
#[derive(Debug, Clone, Copy, PartialEq, Eq, Structural)]
pub enum Bank4 {
    ApexConfig1,
    ApexConfig2,
    ApexConfig3,
    ApexConfig4,
    ApexConfig5,
    ApexConfig6,
    ApexConfig7,
    ApexConfig8,
    ApexConfig9,
    AccelWomXTHR,
    AccelWomYTHR,
    AccelWomZTHR,
    IntSource6,
    IntSource7,
    IntSource8,
    IntSource9,
    IntSource10,
    OffsetUser0,
    OffsetUser1,
    OffsetUser2,
    OffsetUser3,
    OffsetUser4,
    OffsetUser5,
    OffsetUser6,
    OffsetUser7,
    OffsetUser8,
}

impl Bank4 {
    /// The register address within the bank.
    pub open spec fn spec_addr(&self) -> u8 {
        match self {
            Bank4::ApexConfig1 => 0x40,
            Bank4::ApexConfig2 => 0x41,
            Bank4::ApexConfig3 => 0x42,
            Bank4::ApexConfig4 => 0x43,
            Bank4::ApexConfig5 => 0x44,
            Bank4::ApexConfig6 => 0x45,
            Bank4::ApexConfig7 => 0x46,
            Bank4::ApexConfig8 => 0x47,
            Bank4::ApexConfig9 => 0x48,
            Bank4::AccelWomXTHR => 0x4a,
            Bank4::AccelWomYTHR => 0x4b,
            Bank4::AccelWomZTHR => 0x4c,
            Bank4::IntSource6 => 0x4d,
            Bank4::IntSource7 => 0x4e,
            Bank4::IntSource8 => 0x4f,
            Bank4::IntSource9 => 0x50,
            Bank4::IntSource10 => 0x51,
            Bank4::OffsetUser0 => 0x77,
            Bank4::OffsetUser1 => 0x78,
            Bank4::OffsetUser2 => 0x79,
            Bank4::OffsetUser3 => 0x7a,
            Bank4::OffsetUser4 => 0x7b,
            Bank4::OffsetUser5 => 0x7c,
            Bank4::OffsetUser6 => 0x7d,
            Bank4::OffsetUser7 => 0x7e,
            Bank4::OffsetUser8 => 0x7f,
        }
    }

    /// The register address within the bank.
    pub fn addr(&self) -> (r: u8)
        ensures
            r == self.spec_addr(),
    {
        match self {
            Bank4::ApexConfig1 => 0x40,
            Bank4::ApexConfig2 => 0x41,
            Bank4::ApexConfig3 => 0x42,
            Bank4::ApexConfig4 => 0x43,
            Bank4::ApexConfig5 => 0x44,
            Bank4::ApexConfig6 => 0x45,
            Bank4::ApexConfig7 => 0x46,
            Bank4::ApexConfig8 => 0x47,
            Bank4::ApexConfig9 => 0x48,
            Bank4::AccelWomXTHR => 0x4a,
            Bank4::AccelWomYTHR => 0x4b,
            Bank4::AccelWomZTHR => 0x4c,
            Bank4::IntSource6 => 0x4d,
            Bank4::IntSource7 => 0x4e,
            Bank4::IntSource8 => 0x4f,
            Bank4::IntSource9 => 0x50,
            Bank4::IntSource10 => 0x51,
            Bank4::OffsetUser0 => 0x77,
            Bank4::OffsetUser1 => 0x78,
            Bank4::OffsetUser2 => 0x79,
            Bank4::OffsetUser3 => 0x7a,
            Bank4::OffsetUser4 => 0x7b,
            Bank4::OffsetUser5 => 0x7c,
            Bank4::OffsetUser6 => 0x7d,
            Bank4::OffsetUser7 => 0x7e,
            Bank4::OffsetUser8 => 0x7f,
        }
    }
}

/// Law: every register address fits in seven bits, so the read flag (bit 7)
/// of an SPI register access never overlaps an address bit.
pub proof fn lemma_addresses_fit_seven_bits(r0: Bank0, r1: Bank1, r2: Bank2, r3: Bank3, r4: Bank4)
    ensures
        r0.spec_addr() < 0x80,
        r1.spec_addr() < 0x80,
        r2.spec_addr() < 0x80,
        r3.spec_addr() < 0x80,
        r4.spec_addr() < 0x80,
{
}

} // verus!
