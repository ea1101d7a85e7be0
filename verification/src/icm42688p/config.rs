//! IMU sensor configuration: data rates and full-scale ranges, and the
//! values the firmware programs.
use vstd::prelude::*;
use vstd::arithmetic::power2::{lemma2_to64, pow2};

verus! {

/// Gyroscope output data rate.
#[derive(Debug, Clone, Copy, PartialEq, Eq, Structural)]
pub enum GyroODR {
    Khz32,
    Khz16,
    Khz8,
    Khz4,
    Khz2,
    Khz1,
    Hz500,
    Hz200,
    Hz100,
    Hz50,
    Hz25,
    Hz12_5,
}

impl GyroODR {
    /// The rate the variant names, in microhertz.
    pub open spec fn rate_uhz(&self) -> nat {
        match self {
            GyroODR::Khz32 => 32_000_000_000,
            GyroODR::Khz16 => 16_000_000_000,
            GyroODR::Khz8 => 8_000_000_000,
            GyroODR::Khz4 => 4_000_000_000,
            GyroODR::Khz2 => 2_000_000_000,
            GyroODR::Khz1 => 1_000_000_000,
            GyroODR::Hz500 => 500_000_000,
            GyroODR::Hz200 => 200_000_000,
            GyroODR::Hz100 => 100_000_000,
            GyroODR::Hz50 => 50_000_000,
            GyroODR::Hz25 => 25_000_000,
            GyroODR::Hz12_5 => 12_500_000,
        }
    }

    /// The register field value.
    pub open spec fn spec_code(&self) -> u8 {
        match self {
            GyroODR::Khz32 => 0b0001,
            GyroODR::Khz16 => 0b0010,
            GyroODR::Khz8 => 0b0011,
            GyroODR::Khz4 => 0b0100,
            GyroODR::Khz2 => 0b0101,
            GyroODR::Khz1 => 0b0110,
            GyroODR::Hz500 => 0b1111,
            GyroODR::Hz200 => 0b0111,
            GyroODR::Hz100 => 0b1000,
            GyroODR::Hz50 => 0b1001,
            GyroODR::Hz25 => 0b1010,
            GyroODR::Hz12_5 => 0b1011,
        }
    }

    /// The register field value.
    pub fn code(&self) -> (r: u8)
        ensures
            r == self.spec_code(),
    {
        match self {
            GyroODR::Khz32 => 0b0001,
            GyroODR::Khz16 => 0b0010,
            GyroODR::Khz8 => 0b0011,
            GyroODR::Khz4 => 0b0100,
            GyroODR::Khz2 => 0b0101,
            GyroODR::Khz1 => 0b0110,
            GyroODR::Hz500 => 0b1111,
            GyroODR::Hz200 => 0b0111,
            GyroODR::Hz100 => 0b1000,
            GyroODR::Hz50 => 0b1001,
            GyroODR::Hz25 => 0b1010,
            GyroODR::Hz12_5 => 0b1011,
        }
    }
}

/// Gyroscope full-scale range.
#[derive(Debug, Clone, Copy, PartialEq, Eq, Structural)]
pub enum GyroFSR {
    Dps2000,
    Dps1000,
    Dps500,
    Dps250,
    Dps125,
    Dps62_5,
    Dps31_25,
    Dps15_625,
}

impl GyroFSR {
    /// The full-scale range the variant names, in millidegrees per second.
    pub open spec fn full_scale_mdps(&self) -> nat {
        match self {
            GyroFSR::Dps2000 => 2_000_000,
            GyroFSR::Dps1000 => 1_000_000,
            GyroFSR::Dps500 => 500_000,
            GyroFSR::Dps250 => 250_000,
            GyroFSR::Dps125 => 125_000,
            GyroFSR::Dps62_5 => 62_500,
            GyroFSR::Dps31_25 => 31_250,
            GyroFSR::Dps15_625 => 15_625,
        }
    }

    /// The register field value.
    pub open spec fn spec_code(&self) -> u8 {
        match self {
            GyroFSR::Dps2000 => 0b000,
            GyroFSR::Dps1000 => 0b001,
            GyroFSR::Dps500 => 0b010,
            GyroFSR::Dps250 => 0b011,
            GyroFSR::Dps125 => 0b100,
            GyroFSR::Dps62_5 => 0b101,
            GyroFSR::Dps31_25 => 0b110,
            GyroFSR::Dps15_625 => 0b111,
        }
    }

    /// The register field value.
    pub fn code(&self) -> (r: u8)
        ensures
            r == self.spec_code(),
    {
        match self {
            GyroFSR::Dps2000 => 0b000,
            GyroFSR::Dps1000 => 0b001,
            GyroFSR::Dps500 => 0b010,
            GyroFSR::Dps250 => 0b011,
            GyroFSR::Dps125 => 0b100,
            GyroFSR::Dps62_5 => 0b101,
            GyroFSR::Dps31_25 => 0b110,
            GyroFSR::Dps15_625 => 0b111,
        }
    }
}

/// Accelerometer output data rate.
#[derive(Debug, Clone, Copy, PartialEq, Eq, Structural)]
pub enum AccelODR {
    Khz32,
    Khz16,
    Khz8,
    Khz4,
    Khz2,
    Khz1,
    Hz500,
    Hz200,
    Hz100,
    Hz50,
    Hz25,
    Hz12_5,
    Hz6_25,
    Hz3_125,
    Hz1_5625,
}

impl AccelODR {
    /// The rate the variant names, in microhertz.
    pub open spec fn rate_uhz(&self) -> nat {
        match self {
            AccelODR::Khz32 => 32_000_000_000,
            AccelODR::Khz16 => 16_000_000_000,
            AccelODR::Khz8 => 8_000_000_000,
            AccelODR::Khz4 => 4_000_000_000,
            AccelODR::Khz2 => 2_000_000_000,
            AccelODR::Khz1 => 1_000_000_000,
            AccelODR::Hz500 => 500_000_000,
            AccelODR::Hz200 => 200_000_000,
            AccelODR::Hz100 => 100_000_000,
            AccelODR::Hz50 => 50_000_000,
            AccelODR::Hz25 => 25_000_000,
            AccelODR::Hz12_5 => 12_500_000,
            AccelODR::Hz6_25 => 6_250_000,
            AccelODR::Hz3_125 => 3_125_000,
            AccelODR::Hz1_5625 => 1_562_500,
        }
    }

    /// The register field value.
    pub open spec fn spec_code(&self) -> u8 {
        match self {
            AccelODR::Khz32 => 0b0001,
            AccelODR::Khz16 => 0b0010,
            AccelODR::Khz8 => 0b0011,
            AccelODR::Khz4 => 0b0100,
            AccelODR::Khz2 => 0b0101,
            AccelODR::Khz1 => 0b0110,
            AccelODR::Hz500 => 0b1111,
            AccelODR::Hz200 => 0b0111,
            AccelODR::Hz100 => 0b1000,
            AccelODR::Hz50 => 0b1001,
            AccelODR::Hz25 => 0b1010,
            AccelODR::Hz12_5 => 0b1011,
            AccelODR::Hz6_25 => 0b1100,
            AccelODR::Hz3_125 => 0b1101,
            AccelODR::Hz1_5625 => 0b1110,
        }
    }

    /// The register field value.
    pub fn code(&self) -> (r: u8)
        ensures
            r == self.spec_code(),
    {
        match self {
            AccelODR::Khz32 => 0b0001,
            AccelODR::Khz16 => 0b0010,
            AccelODR::Khz8 => 0b0011,
            AccelODR::Khz4 => 0b0100,
            AccelODR::Khz2 => 0b0101,
            AccelODR::Khz1 => 0b0110,
            AccelODR::Hz500 => 0b1111,
            AccelODR::Hz200 => 0b0111,
            AccelODR::Hz100 => 0b1000,
            AccelODR::Hz50 => 0b1001,
            AccelODR::Hz25 => 0b1010,
            AccelODR::Hz12_5 => 0b1011,
            AccelODR::Hz6_25 => 0b1100,
            AccelODR::Hz3_125 => 0b1101,
            AccelODR::Hz1_5625 => 0b1110,
        }
    }
}

/// Accelerometer full-scale range.
#[derive(Debug, Clone, Copy, PartialEq, Eq, Structural)]
pub enum AccelFSR {
    G16,
    G8,
    G4,
    G2,
}

impl AccelFSR {
    /// The full-scale range the variant names, in g.
    pub open spec fn full_scale_g(&self) -> nat {
        match self {
            AccelFSR::G16 => 16,
            AccelFSR::G8 => 8,
            AccelFSR::G4 => 4,
            AccelFSR::G2 => 2,
        }
    }

    /// The register field value.
    pub open spec fn spec_code(&self) -> u8 {
        match self {
            AccelFSR::G16 => 0b000,
            AccelFSR::G8 => 0b001,
            AccelFSR::G4 => 0b010,
            AccelFSR::G2 => 0b011,
        }
    }

    /// The register field value.
    pub fn code(&self) -> (r: u8)
        ensures
            r == self.spec_code(),
    {
        match self {
            AccelFSR::G16 => 0b000,
            AccelFSR::G8 => 0b001,
            AccelFSR::G4 => 0b010,
            AccelFSR::G2 => 0b011,
        }
    }
}

/// The data rate that a 4-bit ODR register code selects, in microhertz:
/// codes 1 to 6 halve 32 kHz at each step, codes 7 to 14 halve 200 Hz at each
/// step, code 15 is 500 Hz.
pub open spec fn odr_code_selects(code: u8, rate_uhz: nat) -> bool {
    ||| 1 <= code <= 6 && rate_uhz * pow2((code - 1) as nat) == 32_000_000_000
    ||| 7 <= code <= 14 && rate_uhz * pow2((code - 7) as nat) == 200_000_000
    ||| code == 15 && rate_uhz == 500_000_000
}

/// Law: each gyroscope rate is programmed with the code that selects it.
pub proof fn lemma_gyro_odr_codes(o: GyroODR)
    ensures
        odr_code_selects(o.spec_code(), o.rate_uhz()),
{
    lemma2_to64();
    match o {
        GyroODR::Khz32 => {},
        GyroODR::Khz16 => {},
        GyroODR::Khz8 => {},
        GyroODR::Khz4 => {},
        GyroODR::Khz2 => {},
        GyroODR::Khz1 => {},
        GyroODR::Hz500 => {},
        GyroODR::Hz200 => {},
        GyroODR::Hz100 => {},
        GyroODR::Hz50 => {},
        GyroODR::Hz25 => {},
        GyroODR::Hz12_5 => {},
    }
}

/// Law: each accelerometer rate is programmed with the code that selects it.
pub proof fn lemma_accel_odr_codes(o: AccelODR)
    ensures
        odr_code_selects(o.spec_code(), o.rate_uhz()),
{
    lemma2_to64();
    match o {
        AccelODR::Khz32 => {},
        AccelODR::Khz16 => {},
        AccelODR::Khz8 => {},
        AccelODR::Khz4 => {},
        AccelODR::Khz2 => {},
        AccelODR::Khz1 => {},
        AccelODR::Hz500 => {},
        AccelODR::Hz200 => {},
        AccelODR::Hz100 => {},
        AccelODR::Hz50 => {},
        AccelODR::Hz25 => {},
        AccelODR::Hz12_5 => {},
        AccelODR::Hz6_25 => {},
        AccelODR::Hz3_125 => {},
        AccelODR::Hz1_5625 => {},
    }
}

/// Law: the gyroscope range code counts halvings of the widest range:
/// code `c` selects +-2000 dps divided by 2 to the power `c`.
pub proof fn lemma_gyro_fsr_codes(g: GyroFSR)
    ensures
        g.spec_code() < 8,
        g.full_scale_mdps() * pow2(g.spec_code() as nat) == 2_000_000,
{
    lemma2_to64();
}

/// Law: the accelerometer range code counts halvings of the widest range:
/// code `c` selects +-16 g divided by 2 to the power `c`.
pub proof fn lemma_accel_fsr_codes(a: AccelFSR)
    ensures
        a.spec_code() < 4,
        a.full_scale_g() * pow2(a.spec_code() as nat) == 16,
{
    lemma2_to64();
}

/// Gyroscope data rate in use.
pub const GYRO_ODR: GyroODR = GyroODR::Khz4;

/// Gyroscope range in use.
pub const GYRO_FSR: GyroFSR = GyroFSR::Dps2000;

/// Accelerometer data rate in use.
pub const ACCEL_ODR: AccelODR = AccelODR::Khz4;

/// Accelerometer range in use.
pub const ACCEL_FSR: AccelFSR = AccelFSR::G16;

/// PWR_MGMT0 bit 4 (IDLE): 0 keeps the RC oscillator off when no sensor runs.
pub const ACTIVE_CMD: u8 = 0b0;

/// PWR_MGMT0 GYRO_MODE field: low-noise mode.
pub const GYRO_PWR_CMD: u8 = 0b11;

/// PWR_MGMT0 ACCEL_MODE field: low-noise mode.
pub const ACCEL_PWR_CMD: u8 = 0b11;

/// Whether the data-ready interrupt is in use (its status must then be read
/// after each sample).
pub const INTERRUPTS_ENABLED: bool = false;

} // verus!
