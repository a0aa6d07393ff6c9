use vstd::prelude::*;

verus! {

use crate::ratio::{Ratio, lemma_mul_le};

/// One generated sample, given as the exact number of waveform cycles
/// ("turns") elapsed at the sample instant: the amplitude of the sample is
/// `sin(2 * pi * num / den)`. Keeping the cycle count as an exact ratio,
/// rather than an amplitude, is what lets every phase computation of the
/// oscillator be checked as plain integer arithmetic; turning a `Turn` into
/// an audible value is one sine evaluation by the caller.
#[derive(Clone, Copy, Debug, PartialEq, Eq, Structural)]
pub struct Turn {
    pub num: u64,
    pub den: u64,
}

/// The running time of the rendering loop after `i` samples, in integer
/// phase units: it starts at `t0`, grows by `step` (one sample interval)
/// per sample, and has `period` (one full cycle) subtracted exactly once
/// each time it reaches `period`. This is the whole phase arithmetic of the
/// oscillator; rendering only evaluates the sine at each of these times.
pub open spec fn t_after(t0: int, step: int, period: int, i: nat) -> int
    decreases i,
{
    if i == 0 {
        t0
    } else {
        let prev = t_after(t0, step, period, (i - 1) as nat);
        if prev >= period {
            prev - period + step
        } else {
            prev + step
        }
    }
}

/// A phase-continuous sine oscillator. It renders a pure sinusoid
/// block-by-block, carries its phase across blocks, and applies a requested
/// frequency change only at the next boundary of the cycle being rendered,
/// so that a change never causes a jump in the waveform.
///
/// The phase offset is kept in integer units of
/// `1 / (rate.num * current_frequency.num)` seconds, the coarsest grid that
/// holds every time value the rendering loop can reach: one sample interval
/// is `rate.den * current_frequency.num` units and one full cycle is
/// `current_frequency.den * rate.num` units, both integers.
#[derive(Clone, Copy, Debug, PartialEq, Eq, Structural)]
pub struct EBUR128Compressor {
    /// Sampling rate in samples per second; fixed for the instance's life.
    pub rate: Ratio,
    /// The frequency being rendered right now, in cycles per second.
    pub current_frequency: Ratio,
    /// The frequency requested most recently; takes effect inside a later
    /// `generate` call, at the next cycle boundary of `current_frequency`.
    pub new_frequency: Ratio,
    /// Phase offset within the current cycle, in units of
    /// `1 / (rate.num * current_frequency.num)` seconds.
    pub offset_units: u64,
}

impl EBUR128Compressor {
    pub open spec fn wf(self) -> bool {
        &&& self.rate.wf()
        &&& self.current_frequency.wf()
        &&& self.new_frequency.wf()
    }

    /// One sample interval, `1/rate`, in units of
    /// `1 / (self.rate.num * f.num)` seconds.
    pub open spec fn step_units(self, f: Ratio) -> int {
        self.rate.den * f.num
    }

    /// One full cycle of `f`, `1/f`, in the same units.
    pub open spec fn period_units(self, f: Ratio) -> int {
        f.den * self.rate.num
    }

    /// No frequency change is outstanding: the requested frequency equals
    /// the one being rendered (compared by value).
    pub open spec fn stable(self) -> bool {
        self.new_frequency.same_value(self.current_frequency)
    }

    /// How many whole samples remain before the running time reaches the
    /// boundary of the current cycle: `floor(max(0, 1/f - phase) * rate)`.
    pub open spec fn boundary_samples(self) -> int {
        if self.offset_units >= self.period_units(self.current_frequency) {
            0
        } else {
            (self.period_units(self.current_frequency) - self.offset_units)
                / self.step_units(self.current_frequency)
        }
    }

    /// A `generate` call on a buffer of `n` samples commits the pending
    /// frequency exactly when a change is outstanding and the cycle
    /// boundary falls within the buffer.
    pub open spec fn splits(self, n: nat) -> bool {
        &&& !self.stable()
        &&& self.boundary_samples() <= n
    }

    /// Numerator of sample `i` of a `generate` call on a buffer of `n`
    /// samples: the running time at the sample, in phase units.
    pub open spec fn sample_num(self, n: nat, i: nat) -> int {
        if self.splits(n) && i >= self.boundary_samples() {
            t_after(
                0,
                self.step_units(self.new_frequency),
                self.period_units(self.new_frequency),
                (i - self.boundary_samples()) as nat,
            )
        } else {
            t_after(
                self.offset_units as int,
                self.step_units(self.current_frequency),
                self.period_units(self.current_frequency),
                i,
            )
        }
    }

    /// Denominator of sample `i` of a `generate` call on a buffer of `n`
    /// samples; `sample_num / sample_den` is the elapsed cycle count.
    pub open spec fn sample_den(self, n: nat, i: nat) -> int {
        if self.splits(n) && i >= self.boundary_samples() {
            self.rate.num * self.new_frequency.den
        } else {
            self.rate.num * self.current_frequency.den
        }
    }

    /// The phase offset after a `generate` call on a buffer of `n` samples.
    pub open spec fn next_offset_units(self, n: nat) -> int {
        if self.splits(n) {
            t_after(
                0,
                self.step_units(self.new_frequency),
                self.period_units(self.new_frequency),
                (n - self.boundary_samples()) as nat,
            )
        } else {
            t_after(
                self.offset_units as int,
                self.step_units(self.current_frequency),
                self.period_units(self.current_frequency),
                n,
            )
        }
    }

    /// The rendering frequency after a `generate` call on a buffer of `n`
    /// samples: the pending one if the call commits it, else unchanged.
    pub open spec fn next_frequency(self, n: nat) -> Ratio {
        if self.splits(n) {
            self.new_frequency
        } else {
            self.current_frequency
        }
    }

    /// The phase arithmetic of a `generate` call on a buffer of `n` samples
    /// stays within `u64` range. Only extremely long buffers or a phase
    /// already driven astronomically far (by rendering far above the
    /// sampling rate for a very long time) fall outside.
    pub open spec fn fits(self, n: nat) -> bool {
        &&& self.offset_units + n * self.step_units(self.current_frequency)
            < 0x4000_0000_0000_0000
        &&& n * self.step_units(self.new_frequency) < 0x4000_0000_0000_0000
    }

    pub fn new(rate: Ratio, frequency: Ratio) -> (r: EBUR128Compressor)
        requires
            rate.wf(),
            frequency.wf(),
        ensures
            r.wf(),
            r.rate == rate,
            r.current_frequency == frequency,
            r.new_frequency == frequency,
            r.offset_units == 0,
    {
        EBUR128Compressor { rate, new_frequency: frequency, current_frequency: frequency, offset_units: 0 }
    }

    pub fn rate(&self) -> (r: Ratio)
        ensures
            r == self.rate,
    {
        self.rate
    }

    /// Zero the phase; nothing else changes.
    pub fn reset(&mut self)
        ensures
            *final(self) == (EBUR128Compressor { offset_units: 0, ..*old(self) }),
    {
        self.offset_units = 0;
    }

    /// Request a frequency change; it takes effect only inside a later
    /// `generate` call, at the next cycle boundary. Nothing else changes.
    pub fn set_frequency(&mut self, frequency: Ratio)
        ensures
            *final(self) == (EBUR128Compressor { new_frequency: frequency, ..*old(self) }),
    {
        self.new_frequency = frequency;
    }

    /// Fill `output` with one block of samples, advancing the phase and, if
    /// a frequency change is outstanding and the current cycle's boundary
    /// falls inside the block, committing the change exactly at that
    /// boundary.
    pub fn generate(&mut self, output: &mut Vec<Turn>)
        requires
            old(self).wf(),
            old(self).fits(old(output)@.len() as nat),
        ensures
            final(self).wf(),
            final(self).rate == old(self).rate,
            final(self).new_frequency == old(self).new_frequency,
            final(self).current_frequency
                == old(self).next_frequency(old(output)@.len() as nat),
            final(self).offset_units
                == old(self).next_offset_units(old(output)@.len() as nat),
            final(output)@.len() == old(output)@.len(),
            forall|i: int| 0 <= i < old(output)@.len() ==> {
                &&& (#[trigger] final(output)@[i]).num
                    == old(self).sample_num(old(output)@.len() as nat, i as nat)
                &&& final(output)@[i].den
                    == old(self).sample_den(old(output)@.len() as nat, i as nat)
            },
    {
        let len: usize = output.len();
        if self.new_frequency.eq_value(&self.current_frequency) {
            // no frequency change scheduled: render the whole block at the
            // current frequency and carry the returned phase forward
            self.offset_units = render(self.rate, self.current_frequency, output, 0, len, self.offset_units);
        } else {
            proof {
                lemma_mul_le(
                    self.current_frequency.den as int,
                    self.rate.num as int,
                    0x8000_0000,
                    0x8000_0000,
                );
                lemma_mul_le(
                    self.rate.den as int,
                    self.current_frequency.num as int,
                    0x8000_0000,
                    0x8000_0000,
                );
                assert(self.rate.den * self.current_frequency.num >= 1) by (nonlinear_arith)
                    requires
                        self.rate.den >= 1,
                        self.current_frequency.num >= 1,
                ;
            }
            // how many samples until the end of the current cycle, where
            // the waveform crosses zero upward?
            let period: u64 = self.current_frequency.den * self.rate.num;
            let step: u64 = self.rate.den * self.current_frequency.num;
            let n: u64 = if self.offset_units >= period {
                0
            } else {
                (period - self.offset_units) / step
            };
            if n > len as u64 {
                // the boundary is beyond this block: keep rendering at the
                // current frequency; the change waits for a later block
                self.offset_units = render(self.rate, self.current_frequency, output, 0, len, self.offset_units);
            } else {
                // the boundary falls inside the block: render up to it at
                // the current frequency, the rest at the new one, and
                // commit the change
                let n_at: usize = n as usize;
                proof {
                    lemma_mul_le(
                        n as int,
                        old(self).step_units(old(self).current_frequency),
                        len as int,
                        old(self).step_units(old(self).current_frequency),
                    );
                    lemma_mul_le(
                        len as int - n as int,
                        old(self).step_units(old(self).new_frequency),
                        len as int,
                        old(self).step_units(old(self).new_frequency),
                    );
                }
                // the phase the first part ends with is discarded: it is,
                // by construction, at the cycle boundary
                render(self.rate, self.current_frequency, output, 0, n_at, self.offset_units);
                self.offset_units = render(self.rate, self.new_frequency, output, n_at, len, 0);
                self.current_frequency = self.new_frequency;
            }
        }
    }
}

/// Render samples `start..end` of `output` at the given frequency, starting
/// from the running time `t0` (in phase units), and return the running time
/// reached after the last sample — the phase to carry into the next block.
fn render(rate: Ratio, frequency: Ratio, output: &mut Vec<Turn>, start: usize, end: usize, t0: u64) -> (t: u64)
    requires
        rate.wf(),
        frequency.wf(),
        start <= end <= old(output)@.len(),
        t0 + (end - start) * (rate.den * frequency.num) < 0x4000_0000_0000_0000,
    ensures
        final(output)@.len() == old(output)@.len(),
        forall|j: int|
            0 <= j < old(output)@.len() && !(start <= j < end)
                ==> final(output)@[j] == old(output)@[j],
        forall|j: int| start <= j < end ==> {
            &&& (#[trigger] final(output)@[j]).num
                == t_after(
                    t0 as int,
                    rate.den * frequency.num,
                    frequency.den * rate.num,
                    (j - start) as nat,
                )
            &&& final(output)@[j].den == rate.num * frequency.den
        },
        t == t_after(
            t0 as int,
            rate.den * frequency.num,
            frequency.den * rate.num,
            (end - start) as nat,
        ),
        t < 0x4000_0000_0000_0000,
{
    let ghost orig = output@;
    proof {
        lemma_mul_le(rate.den as int, frequency.num as int, 0x8000_0000, 0x8000_0000);
        lemma_mul_le(frequency.den as int, rate.num as int, 0x8000_0000, 0x8000_0000);
        lemma_mul_le(rate.num as int, frequency.den as int, 0x8000_0000, 0x8000_0000);
        assert(rate.den * frequency.num >= 1 && frequency.den * rate.num >= 1)
            by (nonlinear_arith)
            requires
                rate.den >= 1,
                frequency.num >= 1,
                frequency.den >= 1,
                rate.num >= 1,
        ;
    }
    let step: u64 = rate.den * frequency.num;
    let period: u64 = frequency.den * rate.num;
    let den: u64 = rate.num * frequency.den;
    let mut t: u64 = t0;
    let mut i: usize = start;
    while i < end
        invariant
            start <= i <= end,
            end <= output@.len(),
            output@.len() == orig.len(),
            step == rate.den * frequency.num,
            period == frequency.den * rate.num,
            den == rate.num * frequency.den,
            1 <= step,
            1 <= period,
            t0 + (end - start) * step < 0x4000_0000_0000_0000,
            t <= t0 + (i - start) * step,
            t == t_after(t0 as int, step as int, period as int, (i - start) as nat),
            forall|j: int|
                0 <= j < orig.len() && !(start <= j < i) ==> output@[j] == orig[j],
            forall|j: int| start <= j < i ==> {
                &&& (#[trigger] output@[j]).num
                    == t_after(t0 as int, step as int, period as int, (j - start) as nat)
                &&& output@[j].den == den
            },
        decreases end - i,
    {
        output[i] = Turn { num: t, den };
        proof {
            let k = i - start;
            assert((k + 1) * step == k * step + step) by (nonlinear_arith);
            lemma_mul_le(k + 1, step as int, end - start, step as int);
        }
        if t >= period {
            t = t - period + step;
        } else {
            t = t + step;
        }
        i = i + 1;
    }
    proof {
        lemma_mul_le(end - start, step as int, end - start, step as int);
    }
    t
}

} // verus!
