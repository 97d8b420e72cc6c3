//! The MAX31865 configuration register model.
//!
//! Five logical fields are packed into one 8-bit word: bit 7 enables the bias
//! voltage, bit 6 selects continuous conversion, bit 5 requests a one-shot
//! conversion, bit 4 selects 3-wire sensing (clear for 2- or 4-wire), and
//! bit 0 selects the 50 Hz mains filter (clear for 60 Hz). Bits 3..=1 are the
//! chip's fault-control bits, unused by this driver and always written as 0.

use vstd::prelude::*;

verus! {

/// How many leads connect the RTD element. 2-wire and 4-wire sensing share an
/// encoding in the configuration word; only 3-wire sensing has a bit of its own.
#[derive(Clone, Copy, PartialEq, Eq, Structural, Debug)]
pub enum WireCount {
    TwoWire,
    ThreeWire,
    FourWire,
}

/// Which mains frequency the chip's notch filter rejects.
#[derive(Clone, Copy, PartialEq, Eq, Structural, Debug)]
pub enum FilterMode {
    Filter50Hz,
    Filter60Hz,
}

/// The five logical fields of the configuration register.
#[derive(Clone, Copy, PartialEq, Eq, Structural, Debug)]
pub struct Max31865Config {
    /// Enable the bias voltage required before a conversion.
    pub vbias: bool,
    /// Convert continuously rather than on demand.
    pub conversion_mode: bool,
    /// Request a single conversion.
    pub one_shot: bool,
    /// How the RTD element is wired.
    pub wire_count: WireCount,
    /// Mains rejection filter selection.
    pub filter_mode: FilterMode,
}

/// The value of bit 4 of the configuration word: set only for 3-wire sensing.
pub open spec fn spec_wire_bit(w: WireCount) -> u8 {
    match w {
        WireCount::ThreeWire => 1,
        WireCount::TwoWire => 0,
        WireCount::FourWire => 0,
    }
}

/// The value of bit 0 of the configuration word: set for the 50 Hz filter.
pub open spec fn spec_filter_bit(f: FilterMode) -> u8 {
    match f {
        FilterMode::Filter50Hz => 1,
        FilterMode::Filter60Hz => 0,
    }
}

/// A boolean field as the value of its configuration bit.
pub open spec fn spec_flag_bit(b: bool) -> u8 {
    if b {
        1
    } else {
        0
    }
}

/// The 8-bit configuration word that encodes the five logical fields.
pub open spec fn spec_pack(c: Max31865Config) -> u8 {
    (spec_flag_bit(c.vbias) * 0x80 + spec_flag_bit(c.conversion_mode) * 0x40
        + spec_flag_bit(c.one_shot) * 0x20 + spec_wire_bit(c.wire_count) * 0x10
        + spec_filter_bit(c.filter_mode)) as u8
}

/// The five logical fields read back out of a configuration word. A clear
/// wire bit reads as 2-wire sensing, since 2-wire and 4-wire share it.
pub open spec fn spec_unpack(b: u8) -> Max31865Config {
    Max31865Config {
        vbias: b / 0x80 % 2 == 1,
        conversion_mode: b / 0x40 % 2 == 1,
        one_shot: b / 0x20 % 2 == 1,
        wire_count: if b / 0x10 % 2 == 1 {
            WireCount::ThreeWire
        } else {
            WireCount::TwoWire
        },
        filter_mode: if b % 2 == 1 {
            FilterMode::Filter50Hz
        } else {
            FilterMode::Filter60Hz
        },
    }
}

/// Whether a configuration word leaves the chip's fault-control bits
/// (bits 3..=1) clear, as every word this driver writes does.
pub open spec fn spec_reserved_clear(b: u8) -> bool {
    b / 2 % 8 == 0
}

impl Max31865Config {
    /// Pack the five logical fields into the 8-bit configuration word.
    pub fn pack(&self) -> (b: u8)
        ensures
            b == spec_pack(*self),
    {
        let mut b: u8 = 0;
        if self.vbias {
            b = b + 0x80;
        }
        if self.conversion_mode {
            b = b + 0x40;
        }
        if self.one_shot {
            b = b + 0x20;
        }
        b = b + match self.wire_count {
            WireCount::ThreeWire => 0x10,
            WireCount::TwoWire => 0,
            WireCount::FourWire => 0,
        };
        b = b + match self.filter_mode {
            FilterMode::Filter50Hz => 1,
            FilterMode::Filter60Hz => 0,
        };
        b
    }

    /// Read the five logical fields back out of a configuration word.
    pub fn unpack(b: u8) -> (c: Max31865Config)
        ensures
            c == spec_unpack(b),
    {
        Max31865Config {
            vbias: b / 0x80 % 2 == 1,
            conversion_mode: b / 0x40 % 2 == 1,
            one_shot: b / 0x20 % 2 == 1,
            wire_count: if b / 0x10 % 2 == 1 {
                WireCount::ThreeWire
            } else {
                WireCount::TwoWire
            },
            filter_mode: if b % 2 == 1 {
                FilterMode::Filter50Hz
            } else {
                FilterMode::Filter60Hz
            },
        }
    }
}

/// Law: packing the fields read out of a configuration word reproduces the
/// word, for every word whose fault-control bits are clear. (A word with a
/// fault-control bit set cannot round-trip: the fields do not carry those
/// bits, and this driver never writes them.)
pub proof fn lemma_pack_unpack(b: u8)
    requires
        spec_reserved_clear(b),
    ensures
        spec_pack(spec_unpack(b)) == b,
{
    assert((b / 0x80 % 2) * 0x80 + (b / 0x40 % 2) * 0x40 + (b / 0x20 % 2) * 0x20 + (b / 0x10 % 2)
        * 0x10 + (b % 2) == b) by (bit_vector)
        requires
            b / 2 % 8 == 0,
    ;
}

/// Law: the five logical fields survive a round trip through the 8-bit
/// encoding. 4-wire sensing is the one exception: it shares its encoding with
/// 2-wire sensing and reads back as 2-wire.
pub proof fn lemma_unpack_pack(c: Max31865Config)
    requires
        c.wire_count != WireCount::FourWire,
    ensures
        spec_unpack(spec_pack(c)) == c,
{
    let a = spec_flag_bit(c.vbias);
    let m = spec_flag_bit(c.conversion_mode);
    let o = spec_flag_bit(c.one_shot);
    let w = spec_wire_bit(c.wire_count);
    let f = spec_filter_bit(c.filter_mode);
    let b = spec_pack(c);
    assert(a <= 1 && m <= 1 && o <= 1 && w <= 1 && f <= 1);
    assert(b == a * 0x80 + m * 0x40 + o * 0x20 + w * 0x10 + f);
    assert(b / 0x80 % 2 == a && b / 0x40 % 2 == m && b / 0x20 % 2 == o && b / 0x10 % 2 == w && b
        % 2 == f) by (bit_vector)
        requires
            a <= 1 && m <= 1 && o <= 1 && w <= 1 && f <= 1,
            b == a * 0x80 + m * 0x40 + o * 0x20 + w * 0x10 + f,
    ;
}

/// Law: every word this driver writes leaves the fault-control bits clear, so
/// [`lemma_pack_unpack`] applies to each of them.
pub proof fn lemma_pack_reserved_clear(c: Max31865Config)
    ensures
        spec_reserved_clear(spec_pack(c)),
{
    let a = spec_flag_bit(c.vbias);
    let m = spec_flag_bit(c.conversion_mode);
    let o = spec_flag_bit(c.one_shot);
    let w = spec_wire_bit(c.wire_count);
    let f = spec_filter_bit(c.filter_mode);
    let b = spec_pack(c);
    assert(b / 2 % 8 == 0) by (bit_vector)
        requires
            a <= 1 && m <= 1 && o <= 1 && w <= 1 && f <= 1,
            b == a * 0x80 + m * 0x40 + o * 0x20 + w * 0x10 + f,
    ;
}

} // verus!
