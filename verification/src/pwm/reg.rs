//! STM32F411 peripheral addresses used for the ESC timers.
//!
//! ESC 1: PB1, TIM3 channel 4; ESC 2: PB10, TIM2 channel 3;
//! ESC 3: PA0, TIM2 channel 1; ESC 4: PA1, TIM2 channel 2.
use vstd::prelude::*;

verus! {

/// Peripheral base addresses.
#[derive(Debug, Clone, Copy, PartialEq, Eq, Structural)]
pub enum PeriphBase {
    Rcc,
    GpioA,
    GpioB,
    Tim2,
    Tim3,
}

impl PeriphBase {
    /// The base address of the peripheral's registers.
    pub open spec fn spec_address(&self) -> u32 {
        match self {
            PeriphBase::Rcc => 0x4002_3800,
            PeriphBase::GpioA => 0x4002_0000,
            PeriphBase::GpioB => 0x4002_0400,
            PeriphBase::Tim2 => 0x4000_0000,
            PeriphBase::Tim3 => 0x4000_0400,
        }
    }

    /// The base address of the peripheral's registers.
    pub fn address(&self) -> (r: u32)
        ensures
            r == self.spec_address(),
    {
        match self {
            PeriphBase::Rcc => 0x4002_3800,
            PeriphBase::GpioA => 0x4002_0000,
            PeriphBase::GpioB => 0x4002_0400,
            PeriphBase::Tim2 => 0x4000_0000,
            PeriphBase::Tim3 => 0x4000_0400,
        }
    }
}

/// Timer register offsets.
#[derive(Debug, Clone, Copy, PartialEq, Eq, Structural)]
pub enum TimReg {
    Cr1,
    Egr,
    Ccmr1,
    Ccmr2,
    Ccer,
    Psc,
    Arr,
    Ccr1,
    Ccr2,
    Ccr3,
    Ccr4,
}

impl TimReg {
    /// The register's offset from the timer's base address.
    pub open spec fn spec_offset(&self) -> u32 {
        match self {
            TimReg::Cr1 => 0x00,
            TimReg::Egr => 0x14,
            TimReg::Ccmr1 => 0x18,
            TimReg::Ccmr2 => 0x1C,
            TimReg::Ccer => 0x20,
            TimReg::Psc => 0x28,
            TimReg::Arr => 0x2C,
            TimReg::Ccr1 => 0x34,
            TimReg::Ccr2 => 0x38,
            TimReg::Ccr3 => 0x3C,
            TimReg::Ccr4 => 0x40,
        }
    }

    /// The register's offset from the timer's base address.
    pub fn offset(&self) -> (r: u32)
        ensures
            r == self.spec_offset(),
    {
        match self {
            TimReg::Cr1 => 0x00,
            TimReg::Egr => 0x14,
            TimReg::Ccmr1 => 0x18,
            TimReg::Ccmr2 => 0x1C,
            TimReg::Ccer => 0x20,
            TimReg::Psc => 0x28,
            TimReg::Arr => 0x2C,
            TimReg::Ccr1 => 0x34,
            TimReg::Ccr2 => 0x38,
            TimReg::Ccr3 => 0x3C,
            TimReg::Ccr4 => 0x40,
        }
    }
}

} // verus!
