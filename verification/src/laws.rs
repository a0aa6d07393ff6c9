use vstd::prelude::*;

verus! {

use crate::cmp::{EBUR128Compressor, t_after};
use crate::ratio::Ratio;

/// While the running time has not yet reached the cycle boundary, rendering
/// never rebases: after `i` samples the running time is exactly
/// `t0 + i * step`.
pub proof fn lemma_t_after_no_wrap(t0: int, step: int, period: int, i: nat)
    requires
        0 <= t0,
        1 <= step,
        1 <= period,
        i == 0 || t0 + (i - 1) * step < period,
    ensures
        t_after(t0, step, period, i) == t0 + i * step,
    decreases i,
{
    if i > 0 {
        if i >= 2 {
            assert((i - 2) * step <= (i - 1) * step) by (nonlinear_arith)
                requires
                    0 <= step,
                    i >= 2,
            ;
        }
        lemma_t_after_no_wrap(t0, step, period, (i - 1) as nat);
        assert((i - 1) * step + step == i * step) by (nonlinear_arith);
    }
}

/// Rendering is compositional in the sample count: running `k + m` samples
/// reaches the same time as running `k` samples and then `m` more from the
/// time the first run returned.
pub proof fn lemma_t_after_compose(t0: int, step: int, period: int, k: nat, m: nat)
    ensures
        t_after(t0, step, period, (k + m) as nat)
            == t_after(t_after(t0, step, period, k), step, period, m),
    decreases m,
{
    if m > 0 {
        lemma_t_after_compose(t0, step, period, k, (m - 1) as nat);
    }
}

/// Full-cycle shape. With the sampling rate an exact multiple `m` of the
/// frequency (`m` divisible by four), a stable oscillator starting at phase
/// zero renders, over a buffer of `m + 1` samples, cycle counts of exactly
/// `0`, `1/4`, `1/2`, `3/4` and `1` at indexes `0`, `m/4`, `m/2`, `3m/4`
/// and `m` — whose sine values are `0`, `+1`, `0`, `-1` and `0`: one full
/// cycle, sampled through its zero crossings and extrema.
pub proof fn lemma_full_cycle_shape(o: EBUR128Compressor, m: nat)
    requires
        o.wf(),
        o.stable(),
        o.offset_units == 0,
        m >= 4,
        m % 4 == 0,
        o.rate.num * o.current_frequency.den == m * o.step_units(o.current_frequency),
    ensures
        o.sample_num((m + 1) as nat, 0) == 0,
        4 * o.sample_num((m + 1) as nat, (m / 4) as nat)
            == o.sample_den((m + 1) as nat, (m / 4) as nat),
        2 * o.sample_num((m + 1) as nat, (m / 2) as nat)
            == o.sample_den((m + 1) as nat, (m / 2) as nat),
        4 * o.sample_num((m + 1) as nat, (3 * m / 4) as nat)
            == 3 * o.sample_den((m + 1) as nat, (3 * m / 4) as nat),
        o.sample_num((m + 1) as nat, m) == o.sample_den((m + 1) as nat, m),
    {
        let s = o.step_units(o.current_frequency);
        let p = o.period_units(o.current_frequency);
        assert(1 <= s && 1 <= p) by (nonlinear_arith)
            requires
                o.rate.num >= 1,
                o.rate.den >= 1,
                o.current_frequency.num >= 1,
                o.current_frequency.den >= 1,
                s == o.rate.den * o.current_frequency.num,
                p == o.current_frequency.den * o.rate.num,
        ;
        assert(p == m * s) by (nonlinear_arith)
            requires
                p == o.current_frequency.den * o.rate.num,
                o.rate.num * o.current_frequency.den == m * s,
        ;
        let q1 = (m / 4) as nat;
        let q2 = (m / 2) as nat;
        let q3 = (3 * m / 4) as nat;
        assert(4 * q1 == m && 2 * q2 == m && 4 * q3 == 3 * m);
        // none of the five indexes lies past the first rebase point
        assert((q1 - 1) * s < m * s && (q2 - 1) * s < m * s && (q3 - 1) * s < m * s
            && (m - 1) * s < m * s) by (nonlinear_arith)
            requires
                1 <= s,
                q1 - 1 < m,
                q2 - 1 < m,
                q3 - 1 < m,
        ;
        lemma_t_after_no_wrap(0, s, p, 0);
        lemma_t_after_no_wrap(0, s, p, q1);
        lemma_t_after_no_wrap(0, s, p, q2);
        lemma_t_after_no_wrap(0, s, p, q3);
        lemma_t_after_no_wrap(0, s, p, m);
        assert(4 * (q1 * s) == (4 * q1) * s && 2 * (q2 * s) == (2 * q2) * s
            && 4 * (q3 * s) == (4 * q3) * s && (3 * m) * s == 3 * (m * s)
            && m * s == (m as int) * s) by (nonlinear_arith);
    }

/// Phase continuity across calls. For a stable oscillator `o`, a block of
/// `k + m` samples carries exactly the samples of a block of `k` followed
/// by a block of `m` rendered by the follow-up state `o2` (same
/// frequencies, phase as `generate` leaves it), and both routes end at the
/// same phase: nothing audible distinguishes one long call from two short
/// ones.
pub proof fn lemma_phase_continuity(o: EBUR128Compressor, o2: EBUR128Compressor, k: nat, m: nat)
    requires
        o.stable(),
        o2.rate == o.rate,
        o2.current_frequency == o.current_frequency,
        o2.new_frequency == o.new_frequency,
        o2.offset_units == o.next_offset_units(k),
    ensures
        forall|i: nat| i < k ==>
            #[trigger] o.sample_num((k + m) as nat, i) == o.sample_num(k, i)
                && o.sample_den((k + m) as nat, i) == o.sample_den(k, i),
        forall|i: nat| k <= i < k + m ==>
            #[trigger] o.sample_num((k + m) as nat, i) == o2.sample_num(m, (i - k) as nat)
                && o.sample_den((k + m) as nat, i) == o2.sample_den(m, (i - k) as nat),
        o.next_offset_units((k + m) as nat) == o2.next_offset_units(m),
        o.next_frequency((k + m) as nat) == o.current_frequency,
        o2.next_frequency(m) == o2.current_frequency,
    {
        let s = o.step_units(o.current_frequency);
        let p = o.period_units(o.current_frequency);
        assert forall|i: nat| k <= i < k + m implies
            #[trigger] o.sample_num((k + m) as nat, i) == o2.sample_num(m, (i - k) as nat)
                && o.sample_den((k + m) as nat, i) == o2.sample_den(m, (i - k) as nat) by {
            lemma_t_after_compose(o.offset_units as int, s, p, k, (i - k) as nat);
        }
        lemma_t_after_compose(o.offset_units as int, s, p, k, m);
    }

/// `reset()` zeroes the phase: a stable oscillator that has been reset
/// renders, for every buffer length and sample index, exactly what a
/// freshly constructed oscillator at the same rate and frequency renders,
/// and both end at the same phase and frequency.
pub proof fn lemma_reset_reproduces_fresh(o: EBUR128Compressor, n: nat, i: nat)
    requires
        o.stable(),
    ensures
        ({
            let after_reset = (EBUR128Compressor { offset_units: 0, ..o });
            let fresh = (EBUR128Compressor {
                rate: o.rate,
                current_frequency: o.current_frequency,
                new_frequency: o.current_frequency,
                offset_units: 0,
            });
            &&& after_reset.sample_num(n, i) == fresh.sample_num(n, i)
            &&& after_reset.sample_den(n, i) == fresh.sample_den(n, i)
            &&& after_reset.next_offset_units(n) == fresh.next_offset_units(n)
            &&& after_reset.next_frequency(n) == fresh.next_frequency(n)
        }),
    {
    }

/// A no-op transition: requesting a frequency equal in value to the one
/// being rendered never splits a buffer, and the rendered samples and the
/// state afterwards match the path with no pending change at all.
pub proof fn lemma_noop_set_frequency(o: EBUR128Compressor, f: Ratio, n: nat, i: nat)
    requires
        f.same_value(o.current_frequency),
    ensures
        ({
            let requested = (EBUR128Compressor { new_frequency: f, ..o });
            let unchanged = (EBUR128Compressor { new_frequency: o.current_frequency, ..o });
            &&& !requested.splits(n)
            &&& requested.sample_num(n, i) == unchanged.sample_num(n, i)
            &&& requested.sample_den(n, i) == unchanged.sample_den(n, i)
            &&& requested.next_offset_units(n) == unchanged.next_offset_units(n)
            &&& requested.next_frequency(n) == unchanged.next_frequency(n)
        }),
    {
    }

} // verus!
