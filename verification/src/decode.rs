//! Decoding a raw RTD conversion into a resistance.
//!
//! The chip spreads a conversion over two 8-bit registers, most significant
//! byte first. Bit 0 of the combined 16-bit value is the fault bit; the upper
//! 15 bits are the ADC code, a ratio against the reference resistor scaled by
//! the ADC's full range of 2^15. Multiplying the code by the calibration
//! constant (the reference resistance in hundredths of an ohm) and dividing by
//! 2^15 therefore yields the measured resistance in hundredths of an ohm, with
//! truncation as the rounding policy.

use vstd::prelude::*;

verus! {

/// The 16-bit value spread big-endian over the two RTD registers.
pub open spec fn spec_raw(msb: u8, lsb: u8) -> int {
    msb * 0x100 + lsb
}

/// The fault bit: bit 0 of the combined raw value, set when the RTD circuit
/// is open, shorted, or out of range.
pub open spec fn spec_fault(msb: u8, lsb: u8) -> bool {
    spec_raw(msb, lsb) % 2 == 1
}

/// The 15-bit ADC code: the combined raw value with the fault bit shifted out.
pub open spec fn spec_adc_code(msb: u8, lsb: u8) -> int {
    spec_raw(msb, lsb) / 2
}

/// The measured resistance in hundredths of an ohm: the ADC code scaled by
/// the calibration constant and divided by the ADC's full range, truncating.
pub open spec fn spec_ohms(msb: u8, lsb: u8, calibration: u32) -> int {
    spec_adc_code(msb, lsb) * calibration / 0x8000
}

/// A decoded conversion: the measured resistance and the fault bit.
#[derive(Clone, Copy, PartialEq, Eq, Structural, Debug)]
pub struct RawConversion {
    /// Measured resistance in hundredths of an ohm.
    pub ohms: u32,
    /// Set when the chip reported a sensor fault; the resistance is then
    /// meaningless and the caller must not act on it.
    pub fault: bool,
}

/// Decode the two raw RTD register bytes against a calibration constant.
pub fn decode(msb: u8, lsb: u8, calibration: u32) -> (r: RawConversion)
    ensures
        r.ohms == spec_ohms(msb, lsb, calibration),
        r.fault == spec_fault(msb, lsb),
{
    let raw: u16 = (msb as u16) * 0x100 + (lsb as u16);
    let fault: bool = raw % 2 == 1;
    let adc: u16 = raw / 2;
    proof {
        assert(adc <= 0x7fff);
        assert(adc * calibration <= 0x7fff * 0xffff_ffffu64) by (nonlinear_arith)
            requires
                adc <= 0x7fff,
                calibration <= 0xffff_ffffu64,
        ;
    }
    let wide: u64 = (adc as u64) * (calibration as u64);
    proof {
        assert(wide / 0x8000 < 0x1_0000_0000) by (nonlinear_arith)
            requires
                wide <= 0x7fff * 0xffff_ffffu64,
        ;
    }
    let ohms: u32 = (wide / 0x8000) as u32;
    RawConversion { ohms, fault }
}

} // verus!
