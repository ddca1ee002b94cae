//! Register-level constants of the TMP100 temperature probe: conversion
//! resolution and bus addressing. The line-level bus driver that carries
//! these values to the part lives outside this library.

use vstd::prelude::*;

verus! {

/// Conversion resolution of the probe.
#[derive(Clone, Copy, Debug, PartialEq, Eq, Structural)]
pub enum Resolution {
    Res9Bit,
    Res10Bit,
    Res11Bit,
    Res12Bit,
}

/// The number of raw counts one degree range spans at a resolution.
pub open spec fn v_range_spec(r: Resolution) -> int {
    match r {
        Resolution::Res9Bit => 256,
        Resolution::Res10Bit => 512,
        Resolution::Res11Bit => 1024,
        Resolution::Res12Bit => 2048,
    }
}

/// The two-bit resolution code held in the configuration register.
pub open spec fn res_code(r: Resolution) -> u8 {
    match r {
        Resolution::Res9Bit => 0b00,
        Resolution::Res10Bit => 0b01,
        Resolution::Res11Bit => 0b10,
        Resolution::Res12Bit => 0b11,
    }
}

impl Resolution {
    /// The raw value range of one conversion at this resolution.
    pub fn get_v_range(&self) -> (r: i32)
        ensures
            r as int == v_range_spec(*self),
    {
        match self {
            Self::Res9Bit => 256,
            Self::Res10Bit => 512,
            Self::Res11Bit => 1024,
            Self::Res12Bit => 2048,
        }
    }

    /// Write this resolution's code into bits 5 and 6 of the
    /// configuration register, leaving every other bit unchanged.
    pub fn set_reg_bits(&self, config_reg: &mut u8)
        ensures
            *final(config_reg) == (*old(config_reg) & !(0b11u8 << 5)) | (res_code(*self) << 5),
    {
        *config_reg &= !(0b11u8 << 5);
        *config_reg |= (match self {
            Self::Res9Bit => 0b00u8,
            Self::Res10Bit => 0b01u8,
            Self::Res11Bit => 0b10u8,
            Self::Res12Bit => 0b11u8,
        }) << 5;
    }
}

/// Level of the probe's address-select line.
#[derive(Clone, Copy, Debug, PartialEq, Eq, Structural)]
pub enum Addr0State {
    Floating,
    High,
    Low,
}

/// The seven-bit bus address selected by the address line.
pub open spec fn addr_spec(a: Addr0State) -> u8 {
    match a {
        Addr0State::Floating => 0b1001001,
        Addr0State::High => 0b1001010,
        Addr0State::Low => 0b1001000,
    }
}

impl Addr0State {
    /// The bus address the probe answers to with this line level.
    pub fn get_addr(&self) -> (r: u8)
        ensures
            r == addr_spec(*self),
    {
        match self {
            Self::Floating => 0b1001001,
            Self::High => 0b1001010,
            Self::Low => 0b1001000,
        }
    }
}

} // verus!
