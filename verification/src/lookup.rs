//! Resistance-to-temperature conversion over a monotonic lookup table.
//!
//! The table is an ordered sequence of (resistance, temperature) samples,
//! strictly increasing in resistance. A lookup finds the bracketing pair of
//! samples and interpolates linearly between them, truncating. A resistance
//! outside the table's range clamps to the nearest boundary temperature and is
//! reported as out of the calibrated range, so callers can tell a clamped
//! reading from a measured one.

use vstd::prelude::*;

verus! {

/// Whether the samples are strictly increasing in resistance.
pub open spec fn spec_strictly_increasing(s: Seq<(u32, i32)>) -> bool {
    forall|i: int, j: int|
        0 <= i < j < s.len() ==> (#[trigger] s[i]).0 < (#[trigger] s[j]).0
}

/// Linear interpolation between the samples (r0, t0) and (r1, t1) at a
/// resistance between r0 and r1, with truncating integer division.
pub open spec fn spec_interpolate(r0: u32, t0: i32, r1: u32, t1: i32, ohms: u32) -> int {
    if t1 >= t0 {
        t0 + (ohms - r0) * (t1 - t0) / (r1 - r0)
    } else {
        t0 - (ohms - r0) * (t0 - t1) / (r1 - r0)
    }
}

/// The temperature the table gives for a resistance: the first sample's
/// temperature at or below the table's range, the last sample's above it, and
/// otherwise the linear interpolation between the bracketing pair of samples.
pub open spec fn spec_lookup(s: Seq<(u32, i32)>, ohms: u32) -> int
    decreases s.len(),
{
    if s.len() <= 1 {
        s[0].1 as int
    } else if ohms <= s[0].0 {
        s[0].1 as int
    } else if ohms < s[1].0 {
        spec_interpolate(s[0].0, s[0].1, s[1].0, s[1].1, ohms)
    } else {
        spec_lookup(s.drop_first(), ohms)
    }
}

/// Whether a resistance lies inside the table's calibrated range.
pub open spec fn spec_in_range(s: Seq<(u32, i32)>, ohms: u32) -> bool {
    s[0].0 <= ohms <= s[s.len() - 1].0
}

/// Why a sample sequence was rejected as a lookup table.
#[derive(Clone, Copy, PartialEq, Eq, Structural, Debug)]
pub enum TableError {
    /// The sequence holds no sample.
    Empty,
    /// Some adjacent pair of samples is not strictly increasing in resistance.
    NotMonotonic,
}

/// A resistance-to-temperature lookup table: at least one sample, strictly
/// increasing in resistance. Temperatures are in hundredths of a degree,
/// resistances in the same hundredths-of-an-ohm unit as the decoder's output.
#[derive(Debug)]
pub struct ResistanceTemperatureTable {
    samples: Vec<(u32, i32)>,
}

impl View for ResistanceTemperatureTable {
    type V = Seq<(u32, i32)>;

    closed spec fn view(&self) -> Seq<(u32, i32)> {
        self.samples@
    }
}

impl ResistanceTemperatureTable {
    /// Well-formedness: what [`ResistanceTemperatureTable::new`] establishes
    /// and every method preserves.
    pub open spec fn wf(&self) -> bool {
        self@.len() >= 1 && spec_strictly_increasing(self@)
    }

    /// Build a table from (resistance, temperature) samples, rejecting a
    /// sequence that is empty or not strictly increasing in resistance.
    pub fn new(samples: Vec<(u32, i32)>) -> (r: Result<ResistanceTemperatureTable, TableError>)
        ensures
            match r {
                Ok(t) => t.wf() && t@ == samples@,
                Err(TableError::Empty) => samples@.len() == 0,
                Err(TableError::NotMonotonic) => samples@.len() >= 1 && !spec_strictly_increasing(
                    samples@,
                ),
            },
    {
        let n = samples.len();
        if n == 0 {
            return Err(TableError::Empty);
        }
        let mut k: usize = 1;
        while k < n
            invariant
                1 <= k <= n,
                n == samples@.len(),
                forall|i: int, j: int|
                    0 <= i < j < k ==> (#[trigger] samples@[i]).0 < (#[trigger] samples@[j]).0,
            decreases n - k,
        {
            if samples[k - 1].0 >= samples[k].0 {
                assert(!spec_strictly_increasing(samples@)) by {
                    assert(!((samples@[k - 1]).0 < (samples@[k as int]).0));
                }
                return Err(TableError::NotMonotonic);
            }
            proof {
                assert forall|i: int, j: int| 0 <= i < j < k + 1 implies (#[trigger] samples@[i]).0
                    < (#[trigger] samples@[j]).0 by {
                    if j == k && i < k - 1 {
                        assert(samples@[i].0 < samples@[k - 1].0);
                    }
                }
            }
            k = k + 1;
        }
        Ok(ResistanceTemperatureTable { samples })
    }

    /// The number of samples in the table.
    pub fn len(&self) -> (n: usize)
        ensures
            n == self@.len(),
    {
        self.samples.len()
    }

    /// The sample at an index, in table order.
    pub fn sample(&self, i: usize) -> (p: (u32, i32))
        requires
            i < self@.len(),
        ensures
            p == self@[i as int],
    {
        self.samples[i]
    }

    /// Map a resistance to a temperature in hundredths of a degree. The
    /// second result is true exactly when the resistance lies inside the
    /// table's calibrated range; outside it, the temperature is clamped to
    /// the nearest boundary sample.
    pub fn lookup(&self, ohms: u32) -> (r: (i32, bool))
        requires
            self.wf(),
        ensures
            r.0 == spec_lookup(self@, ohms),
            r.1 == spec_in_range(self@, ohms),
            ohms < self@[0].0 ==> r.0 == self@[0].1 && !r.1,
            ohms > self@[self@.len() - 1].0 ==> r.0 == self@[self@.len() - 1].1 && !r.1,
    {
        let ghost s = self@;
        let n = self.samples.len();
        let first = self.samples[0];
        if ohms <= first.0 {
            proof {
                lemma_lookup_clamps_low(s, ohms);
            }
            return (first.1, ohms == first.0);
        }
        proof {
            assert(s.skip(0) =~= s);
        }
        let mut i: usize = 0;
        while i + 1 < n && self.samples[i + 1].0 <= ohms
            invariant
                self.wf(),
                s == self@,
                n == s.len(),
                0 <= i < n,
                s[i as int].0 <= ohms,
                s[0].0 < ohms,
                spec_lookup(s, ohms) == spec_lookup(s.skip(i as int), ohms),
            decreases n - i,
        {
            proof {
                let tail = s.skip(i as int);
                assert(tail[0] == s[i as int]);
                assert(tail[1] == s[i + 1]);
                assert(s[i as int].0 < s[i + 1].0);
                assert(tail.drop_first() =~= s.skip(i + 1));
            }
            i = i + 1;
        }
        let a = self.samples[i];
        proof {
            let tail = s.skip(i as int);
            assert(tail[0] == s[i as int]);
        }
        if i + 1 == n {
            // At or above the last sample: clamp to it.
            proof {
                assert(s.skip(i as int).len() == 1);
            }
            (a.1, ohms <= a.0)
        } else {
            let b = self.samples[i + 1];
            proof {
                assert(s.skip(i as int)[1] == s[i + 1]);
                assert(s[i + 1].0 <= s[n - 1].0);
            }
            let temp = interpolate(a.0, a.1, b.0, b.1, ohms);
            proof {
                if ohms <= a.0 {
                    // Only possible at an exact sample hit; interpolation
                    // degenerates to the sample's own temperature.
                    assert(ohms == a.0);
                    lemma_interpolate_at_left(a.0, a.1, b.0, b.1);
                }
            }
            (temp, true)
        }
    }
}

/// A resistance at or below the table's first sample maps to that sample's
/// temperature.
proof fn lemma_lookup_clamps_low(s: Seq<(u32, i32)>, ohms: u32)
    requires
        s.len() >= 1,
        ohms <= s[0].0,
    ensures
        spec_lookup(s, ohms) == s[0].1,
{
}

/// Interpolation at the left endpoint degenerates to the left temperature.
proof fn lemma_interpolate_at_left(r0: u32, t0: i32, r1: u32, t1: i32)
    requires
        r0 < r1,
    ensures
        spec_interpolate(r0, t0, r1, t1, r0) == t0,
{
    assert(0int / (r1 - r0) == 0) by (nonlinear_arith)
        requires
            r1 - r0 > 0,
    ;
}

/// Truncating interpolation between (r0, t0) and (r1, t1) at a resistance in
/// between; the result lies between the two temperatures.
fn interpolate(r0: u32, t0: i32, r1: u32, t1: i32, ohms: u32) -> (t: i32)
    requires
        r0 <= ohms < r1,
    ensures
        t == spec_interpolate(r0, t0, r1, t1, ohms),
{
    let delta: u64 = (ohms - r0) as u64;
    let span: u64 = (r1 - r0) as u64;
    if t1 >= t0 {
        let dt: u64 = ((t1 as i64) - (t0 as i64)) as u64;
        proof {
            assert(delta * dt <= 0xffff_ffffu64 * 0xffff_ffffu64) by (nonlinear_arith)
                requires
                    delta <= 0xffff_ffffu64,
                    dt <= 0xffff_ffffu64,
            ;
        }
        let scaled: u64 = delta * dt;
        proof {
            assert(scaled / span <= dt) by (nonlinear_arith)
                requires
                    scaled == delta * dt,
                    delta < span,
            ;
        }
        let q: u64 = scaled / span;
        ((t0 as i64) + (q as i64)) as i32
    } else {
        let dt: u64 = ((t0 as i64) - (t1 as i64)) as u64;
        proof {
            assert(delta * dt <= 0xffff_ffffu64 * 0xffff_ffffu64) by (nonlinear_arith)
                requires
                    delta <= 0xffff_ffffu64,
                    dt <= 0xffff_ffffu64,
            ;
        }
        let scaled: u64 = delta * dt;
        proof {
            assert(scaled / span <= dt) by (nonlinear_arith)
                requires
                    scaled == delta * dt,
                    delta < span,
            ;
        }
        let q: u64 = scaled / span;
        ((t0 as i64) - (q as i64)) as i32
    }
}

} // verus!
