use ebur128_compressor::{EBUR128Compressor, Ratio, Turn};

/// A buffer of `n` placeholder turns, to be overwritten by `generate`.
fn turn_buf(n: usize) -> Vec<Turn> {
    vec![Turn { num: 0, den: 1 }; n]
}

/// The audible amplitude of one sample: sin(2*pi*cycles).
fn sample(t: &Turn) -> f32 {
    ((t.num as f64 / t.den as f64) * 2.0 * std::f64::consts::PI).sin() as f32
}

fn samples(buf: &[Turn]) -> Vec<f32> {
    buf.iter().map(sample).collect()
}

/// The phase offset in seconds: the stored units are
/// 1 / (rate.num * current_frequency.num) of a second.
fn offset_seconds(g: &EBUR128Compressor) -> f32 {
    g.offset_units as f32 / (g.rate.num * g.current_frequency.num) as f32
}

fn eq_epsilon(a: f32, b: f32) -> bool {
    (a - b).abs() <= f32::EPSILON
}

#[test]
fn test_signal() {
    let mut gen = EBUR128Compressor::new(Ratio::whole(8), Ratio::whole(1));

    let mut buf = turn_buf(gen.rate().num as usize + 1);
    // the buffer has rate+1 elements: the full sine runs 0..2*PI, and 2*PI
    // is already the first sample of the next cycle, so it lands in the
    // last buffer element

    gen.generate(&mut buf);
    let buf = samples(&buf);
    println!("buf: {:?}", buf);

    // check the minima, maxima and zero crossings of the generated sine
    assert!(0.0 - buf[0] <= f32::EPSILON);
    assert!(1.0 - buf[(buf.len() - 1) / 4] <= f32::EPSILON);
    assert!(0.0 - buf[(buf.len() - 1) / 2] <= f32::EPSILON);
    assert!(-1.0 - buf[(buf.len() - 1) / 4 * 3] <= f32::EPSILON);
    assert!(0.0 - buf[buf.len() - 1] <= f32::EPSILON);
}

#[test]
fn test_continuation_simple() {
    let mut gen = EBUR128Compressor::new(Ratio::whole(8), Ratio::whole(1));

    let mut buf = turn_buf(4);

    gen.generate(&mut buf);
    let s = samples(&buf);
    println!("buf: {:?}", s);
    assert!(eq_epsilon(0.0, s[0]));
    assert!(eq_epsilon(1.0, s[2]));

    gen.generate(&mut buf);
    let s = samples(&buf);
    println!("buf: {:?}", s);
    assert!(eq_epsilon(0.0, s[0]));
    assert!(eq_epsilon(-1.0, s[2]));
}

#[test]
fn test_continuation_odd() {
    let mut gen = EBUR128Compressor::new(Ratio::whole(16), Ratio::whole(1));
    // 0.25 s, in units of 1/16 s
    gen.offset_units = 4;

    let mut buf = turn_buf(16);

    // run full 16 samples, generating the whole cycle; offset_t is
    // expected to come back around to where it started
    gen.generate(&mut buf);
    println!("buf: {:?}", samples(&buf));
    println!("gen.offset_t: {:?}", offset_seconds(&gen));
    assert!(eq_epsilon(0.25, offset_seconds(&gen)));

    // gen.reset() sets the offset back to 0
    gen.reset();

    // run 4 samples, generating only a quarter; the offset is then
    // expected at a quarter of the cycle, 0.25 s; after another quarter
    // it reaches 0.5 s
    let mut buf = turn_buf(4);
    // first quarter
    gen.generate(&mut buf);
    let s = samples(&buf);
    println!("buf: {:?}", s);
    println!("gen.offset_t: {:?}", offset_seconds(&gen));
    assert!(eq_epsilon(0.25, offset_seconds(&gen)));
    assert!(eq_epsilon(0., s[0]));

    // second quarter
    gen.generate(&mut buf);
    let s = samples(&buf);
    println!("buf: {:?}", s);
    println!("gen.offset_t: {:?}", offset_seconds(&gen));
    assert!(eq_epsilon(0.5, offset_seconds(&gen)));
    assert!(eq_epsilon(1., s[0]));
}

#[test]
fn change_frequency() {
    let mut gen = EBUR128Compressor::new(Ratio::whole(8), Ratio::whole(2));

    let mut buf = turn_buf(2);

    gen.generate(&mut buf);
    let s = samples(&buf);
    println!("buf: {:?}", s);
    println!("gen.offset_t: {:?}", offset_seconds(&gen));
    assert!(eq_epsilon(0.25, offset_seconds(&gen)));
    assert!(eq_epsilon(0., s[0]));
    assert!(eq_epsilon(1., s[1]));

    gen.set_frequency(Ratio::whole(1));
    let mut buf = turn_buf(6);

    gen.generate(&mut buf);
    let s = samples(&buf);
    println!("buf: {:?}", s);
    println!("gen.offset_t: {:?}", offset_seconds(&gen));
    // samples still @2Hz
    assert!(eq_epsilon(0., s[0]));
    assert!(eq_epsilon(-1., s[1]));
    // samples after effective frequency change @1Hz
    assert!(eq_epsilon(0., s[2]));
    assert!(eq_epsilon(1., s[4]));
    // stopped sampling at offset 0.5s (half the period of 1Hz)
    assert!(eq_epsilon(0.5, offset_seconds(&gen)));
}

#[test]
fn full_cycle_turns_exact() {
    // one full cycle at 1 Hz sampled at 8 Hz: the cycle counts are exactly
    // 0/8 .. 8/8, so the quarter points carry sine values 0, 1, 0, -1, 0
    let mut gen = EBUR128Compressor::new(Ratio::whole(8), Ratio::whole(1));
    let mut buf = turn_buf(9);
    gen.generate(&mut buf);
    for (i, t) in buf.iter().enumerate() {
        assert_eq!(t.num, i as u64);
        assert_eq!(t.den, 8);
    }
    // the final sample sits exactly one cycle in: the carried phase wrapped
    assert_eq!(gen.offset_units, 1);
}

#[test]
fn phase_continuity_concrete() {
    // k samples then m samples sound exactly like k+m in one call,
    // also at a frequency that does not divide the sampling rate
    let rate = Ratio::whole(8);
    let f = Ratio::new(3, 2);
    let mut one_call = EBUR128Compressor::new(rate, f);
    let mut two_calls = EBUR128Compressor::new(rate, f);

    let mut whole = turn_buf(7);
    one_call.generate(&mut whole);

    let mut head = turn_buf(3);
    let mut tail = turn_buf(4);
    two_calls.generate(&mut head);
    two_calls.generate(&mut tail);

    head.extend_from_slice(&tail);
    assert_eq!(whole, head);
    assert_eq!(one_call.offset_units, two_calls.offset_units);
    assert_eq!(one_call.current_frequency, two_calls.current_frequency);
}

#[test]
fn noop_set_frequency_concrete() {
    // requesting 4/2 while rendering 2/1 is a request for the same value:
    // no split, output and phase exactly as with no request at all
    let rate = Ratio::whole(8);
    let f = Ratio::whole(2);
    let mut requested = EBUR128Compressor::new(rate, f);
    let mut plain = EBUR128Compressor::new(rate, f);

    requested.set_frequency(Ratio::new(4, 2));
    let mut buf_requested = turn_buf(5);
    let mut buf_plain = turn_buf(5);
    requested.generate(&mut buf_requested);
    plain.generate(&mut buf_plain);

    assert_eq!(buf_requested, buf_plain);
    assert_eq!(requested.offset_units, plain.offset_units);
    // the rendering frequency never changed
    assert_eq!(requested.current_frequency, f);
}

#[test]
fn reset_reproduces_fresh() {
    // after an arbitrary history ending in a committed change, reset makes
    // the oscillator sound like a freshly constructed one
    let rate = Ratio::whole(8);
    let mut used = EBUR128Compressor::new(rate, Ratio::whole(2));
    let mut buf = turn_buf(3);
    used.generate(&mut buf);
    used.set_frequency(Ratio::whole(1));
    let mut buf = turn_buf(8);
    used.generate(&mut buf);
    assert_eq!(used.current_frequency, Ratio::whole(1));

    used.reset();
    let mut fresh = EBUR128Compressor::new(rate, Ratio::whole(1));
    let mut buf_used = turn_buf(6);
    let mut buf_fresh = turn_buf(6);
    used.generate(&mut buf_used);
    fresh.generate(&mut buf_fresh);
    assert_eq!(buf_used, buf_fresh);
    assert_eq!(used.offset_units, fresh.offset_units);
}

#[test]
fn change_exactly_at_boundary() {
    // a pending change with the phase already at the cycle boundary renders
    // the entire buffer at the new frequency
    let mut gen = EBUR128Compressor::new(Ratio::whole(8), Ratio::whole(2));
    // one full 2 Hz cycle is 8 units of 1/16 s
    gen.offset_units = 8;
    gen.set_frequency(Ratio::whole(1));
    let mut buf = turn_buf(4);
    gen.generate(&mut buf);
    for (i, t) in buf.iter().enumerate() {
        assert_eq!(t.num, i as u64);
        assert_eq!(t.den, 8);
    }
    assert_eq!(gen.current_frequency, Ratio::whole(1));
    assert_eq!(gen.offset_units, 4);
}

#[test]
fn change_at_end_of_buffer() {
    // the boundary falling exactly on the buffer end commits the change
    // with the new frequency's part empty: the phase restarts at zero
    let mut gen = EBUR128Compressor::new(Ratio::whole(8), Ratio::whole(2));
    gen.set_frequency(Ratio::whole(1));
    let mut buf = turn_buf(4);
    gen.generate(&mut buf);
    // the whole buffer still renders the old 2 Hz cycle
    for (i, t) in buf.iter().enumerate() {
        assert_eq!(t.num, 2 * i as u64);
        assert_eq!(t.den, 8);
    }
    assert_eq!(gen.current_frequency, Ratio::whole(1));
    assert_eq!(gen.offset_units, 0);
}

#[test]
fn change_deferred_past_buffer() {
    // a boundary beyond the buffer defers the change to a later call,
    // which then splits
    let mut gen = EBUR128Compressor::new(Ratio::whole(8), Ratio::whole(1));
    gen.set_frequency(Ratio::whole(2));
    let mut buf = turn_buf(4);
    gen.generate(&mut buf);
    // still 1 Hz, change deferred
    assert_eq!(gen.current_frequency, Ratio::whole(1));
    assert_eq!(gen.offset_units, 4);

    let mut buf = turn_buf(6);
    gen.generate(&mut buf);
    let nums: Vec<u64> = buf.iter().map(|t| t.num).collect();
    // four old 1 Hz samples up to the boundary, then two at 2 Hz from zero
    assert_eq!(nums, vec![4, 5, 6, 7, 0, 2]);
    assert_eq!(gen.current_frequency, Ratio::whole(2));
    assert_eq!(gen.offset_units, 4);
}

#[test]
fn empty_buffer_is_noop() {
    let mut gen = EBUR128Compressor::new(Ratio::whole(8), Ratio::whole(2));
    gen.offset_units = 3;
    let mut buf = turn_buf(0);
    gen.generate(&mut buf);
    assert_eq!(gen.offset_units, 3);
    assert_eq!(gen.current_frequency, Ratio::whole(2));
}

#[test]
fn ratio_value_equality() {
    let half = Ratio::new(1, 2);
    let other_half = Ratio::new(2, 4);
    let third = Ratio::new(1, 3);
    assert!(half.eq_value(&other_half));
    assert!(!half.eq_value(&third));
}
