//! MAX31865 register addresses and SPI frame construction.
//!
//! Every transaction on the bus clocks two bytes out: an address byte and a
//! value byte. A register is read at its base address and written at the base
//! address with the direction bit (0x80) set. During a full-duplex read the
//! chip clocks two bytes back, and the second of them is the register's value.

use vstd::prelude::*;

verus! {

/// The registers this driver touches.
#[derive(Clone, Copy, PartialEq, Eq, Structural, Debug)]
pub enum Register {
    /// The configuration register, base address 0x00.
    Config,
    /// The most significant byte of the RTD conversion, base address 0x01.
    RtdMsb,
    /// The least significant byte of the RTD conversion, base address 0x02.
    RtdLsb,
}

impl Register {
    /// The register's base address, which is also its read address.
    pub open spec fn spec_base(self) -> u8 {
        match self {
            Register::Config => 0x00,
            Register::RtdMsb => 0x01,
            Register::RtdLsb => 0x02,
        }
    }

    /// The address byte that selects this register for reading.
    pub fn read_address(self) -> (a: u8)
        ensures
            a == self.spec_base(),
    {
        match self {
            Register::Config => 0x00,
            Register::RtdMsb => 0x01,
            Register::RtdLsb => 0x02,
        }
    }

    /// The address byte that selects this register for writing: the base
    /// address with the direction bit 0x80 set.
    pub fn write_address(self) -> (a: u8)
        ensures
            a == self.spec_base() + 0x80,
    {
        match self {
            Register::Config => 0x80,
            Register::RtdMsb => 0x81,
            Register::RtdLsb => 0x82,
        }
    }
}

/// The two-byte transmit buffer that writes `value` into `reg`.
pub fn write_tx(reg: Register, value: u8) -> (t: (u8, u8))
    ensures
        t.0 == reg.spec_base() + 0x80,
        t.1 == value,
{
    (reg.write_address(), value)
}

/// The two-byte transmit buffer of a full-duplex read of `reg`: the read
/// address followed by a padding byte, clocked out while the chip clocks the
/// reply back.
pub fn transfer_tx(reg: Register) -> (t: (u8, u8))
    ensures
        t.0 == reg.spec_base(),
        t.1 == 0,
{
    (reg.read_address(), 0x00)
}

/// The register value carried by a two-byte full-duplex reply: the second
/// byte. (The first byte is clocked back while the address is still going out
/// and carries nothing.)
pub fn response_value(rx: (u8, u8)) -> (v: u8)
    ensures
        v == rx.1,
{
    rx.1
}

} // verus!
