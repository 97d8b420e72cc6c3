//! The MAX31865 driver protocol as a pure state machine.
//!
//! The driver owns no bus: every operation either builds the two-byte SPI
//! frame the caller must clock out, or consumes the bytes the caller clocked
//! in. The caller asserts chip-select around each frame, performs the
//! transaction, and hands the reply back; the driver decides everything else.
//!
//! The protocol has two states. A driver starts unconfigured; [`Driver::configure`]
//! is the one transition to the configured state, and reading is a self-loop
//! on it that never changes the configuration.

use crate::config::Max31865Config;
use crate::config::spec_pack;
use crate::decode::RawConversion;
use crate::decode::decode;
use crate::decode::spec_fault;
use crate::decode::spec_ohms;
use crate::lookup::ResistanceTemperatureTable;
use crate::lookup::spec_in_range;
use crate::lookup::spec_lookup;
use crate::registers::Register;
use crate::registers::transfer_tx;
use crate::registers::write_tx;
use vstd::prelude::*;

verus! {

/// One decoded read cycle: the measured resistance, the chip's fault bit, and
/// the temperature the lookup table gives for the resistance, flagged when the
/// resistance fell outside the table's calibrated range and was clamped.
#[derive(Clone, Copy, PartialEq, Eq, Structural, Debug)]
pub struct Reading {
    /// Measured resistance in hundredths of an ohm.
    pub ohms: u32,
    /// The chip reported a sensor fault; the other fields are then meaningless.
    pub fault: bool,
    /// Temperature in hundredths of a degree Celsius.
    pub temperature_centidegrees: i32,
    /// The resistance lay inside the lookup table's calibrated range.
    pub in_range: bool,
}

/// The driver's state: the configuration written so far (none while
/// unconfigured), the calibration constant, and the lookup table.
pub struct Driver {
    /// The configuration in force, once [`Driver::configure`] has run.
    pub config: Option<Max31865Config>,
    /// The reference resistance in hundredths of an ohm.
    pub calibration: u32,
    /// The resistance-to-temperature table for this sensor.
    pub table: ResistanceTemperatureTable,
}

impl Driver {
    /// Well-formedness: established by [`Driver::new`] and preserved by every
    /// method.
    pub open spec fn wf(&self) -> bool {
        self.table.wf()
    }

    /// A new, unconfigured driver over a calibration constant and a lookup
    /// table.
    pub fn new(calibration: u32, table: ResistanceTemperatureTable) -> (d: Driver)
        requires
            table.wf(),
        ensures
            d.wf(),
            d.config is None,
            d.calibration == calibration,
            d.table@ == table@,
    {
        Driver { config: None, calibration, table }
    }

    /// Replace the calibration constant: the reference resistance in
    /// hundredths of an ohm.
    pub fn set_calibration(&mut self, calibration: u32)
        ensures
            final(self).wf() == old(self).wf(),
            final(self).calibration == calibration,
            final(self).config == old(self).config,
            final(self).table == old(self).table,
    {
        self.calibration = calibration;
    }

    /// Move to the configured state and build the frame that writes the
    /// packed configuration word to the configuration register's write
    /// address. This is the only transition out of the unconfigured state.
    pub fn configure(&mut self, config: Max31865Config) -> (frame: (u8, u8))
        ensures
            final(self).wf() == old(self).wf(),
            final(self).config == Some(config),
            final(self).calibration == old(self).calibration,
            final(self).table == old(self).table,
            frame.0 == 0x80,
            frame.1 == spec_pack(config),
    {
        self.config = Some(config);
        write_tx(Register::Config, config.pack())
    }

    /// The frame of a full-duplex read-back of the configuration register,
    /// for verifying a configure.
    pub fn config_readback_frame(&self) -> (frame: (u8, u8))
        requires
            self.config is Some,
        ensures
            frame == (0x00u8, 0x00u8),
    {
        transfer_tx(Register::Config)
    }

    /// Whether a configuration word read back from the chip matches the one
    /// this driver last wrote.
    pub fn readback_matches(&self, value: u8) -> (ok: bool)
        requires
            self.config is Some,
        ensures
            ok <==> value == spec_pack(self.config->Some_0),
    {
        match self.config {
            Some(c) => value == c.pack(),
            None => false,
        }
    }

    /// Whether the conversion-ready line signals a finished conversion. The
    /// line is active-low: the chip drives it low when a conversion completes.
    pub fn is_ready(&self, level: u8) -> (r: bool)
        requires
            self.config is Some,
        ensures
            r <==> level == 0,
    {
        level == 0
    }

    /// The two frames of a raw conversion read, each a full-duplex read to be
    /// bracketed by its own chip-select assertion: the RTD most significant
    /// byte first, then the least significant byte.
    pub fn read_frames(&self) -> (frames: ((u8, u8), (u8, u8)))
        requires
            self.config is Some,
        ensures
            frames.0 == (0x01u8, 0x00u8),
            frames.1 == (0x02u8, 0x00u8),
    {
        (transfer_tx(Register::RtdMsb), transfer_tx(Register::RtdLsb))
    }

    /// Decode the two raw register bytes a read cycle returned: the measured
    /// resistance under the calibration constant, the fault bit, and the
    /// table's temperature for the resistance with its range flag.
    pub fn complete_read(&self, msb: u8, lsb: u8) -> (r: Reading)
        requires
            self.wf(),
            self.config is Some,
        ensures
            r.ohms == spec_ohms(msb, lsb, self.calibration),
            r.fault == spec_fault(msb, lsb),
            r.temperature_centidegrees == spec_lookup(self.table@, r.ohms),
            r.in_range == spec_in_range(self.table@, r.ohms),
    {
        let raw: RawConversion = decode(msb, lsb, self.calibration);
        let (temperature_centidegrees, in_range) = self.table.lookup(raw.ohms);
        Reading { ohms: raw.ohms, fault: raw.fault, temperature_centidegrees, in_range }
    }
}

} // verus!
