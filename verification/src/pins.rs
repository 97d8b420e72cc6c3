//! Logical-to-physical GPIO pin resolution.
//!
//! The board exposes a numbered header; the operating system exports GPIO
//! lines under different numbers. The fixed table below maps one to the other.

use vstd::prelude::*;

verus! {

/// The physical GPIO line exported for a logical header pin, or 0 for a pin
/// with no mapping. This table is the authoritative list of supported pins.
pub open spec fn spec_pin_line(pin: u64) -> u64 {
    match pin {
        1u64 => 508,
        2u64 => 509,
        4u64 => 378,
        5u64 => 377,
        6u64 => 371,
        7u64 => 372,
        9u64 => 375,
        10u64 => 374,
        11u64 => 373,
        12u64 => 370,
        14u64 => 425,
        15u64 => 426,
        16u64 => 496,
        17u64 => 497,
        19u64 => 494,
        20u64 => 495,
        21u64 => 503,
        22u64 => 504,
        24u64 => 502,
        25u64 => 505,
        26u64 => 507,
        27u64 => 506,
        29u64 => 356,
        41u64 => 440,
        _ => 0,
    }
}

/// Whether a logical pin has an entry in the mapping table. No mapped pin uses
/// line 0, so the 0 sentinel identifies a miss exactly.
pub open spec fn spec_pin_mapped(pin: u64) -> bool {
    spec_pin_line(pin) != 0
}

/// Look up the exported GPIO line for a logical header pin. A pin outside the
/// mapping table resolves to the sentinel value 0, which is not a usable line;
/// callers that must not act on an unmapped pin should use [`resolve`] instead.
pub fn gpio_get_pin(pin_num: u64) -> (line: u64)
    ensures
        line == spec_pin_line(pin_num),
{
    match pin_num {
        1 => 508,
        2 => 509,
        4 => 378,
        5 => 377,
        6 => 371,
        7 => 372,
        9 => 375,
        10 => 374,
        11 => 373,
        12 => 370,
        14 => 425,
        15 => 426,
        16 => 496,
        17 => 497,
        19 => 494,
        20 => 495,
        21 => 503,
        22 => 504,
        24 => 502,
        25 => 505,
        26 => 507,
        27 => 506,
        29 => 356,
        41 => 440,
        _ => 0,
    }
}

/// Resolve a logical header pin to its exported GPIO line, distinguishing a
/// miss explicitly instead of degrading to the 0 sentinel.
pub fn resolve(pin: u64) -> (r: Option<u64>)
    ensures
        spec_pin_mapped(pin) ==> r == Some(spec_pin_line(pin)),
        !spec_pin_mapped(pin) ==> r is None,
{
    let line = gpio_get_pin(pin);
    if line == 0 {
        None
    } else {
        Some(line)
    }
}

} // verus!
