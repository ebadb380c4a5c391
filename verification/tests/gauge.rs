use stream_gauge::{gauge, gauge_with_alpha, Gauge, GaugeHandle, ReadOutcome, WriteOutcome};
use stream_gauge::{ReadGauge, ReadHalf, WholeStream, WriteGauge, WriteHalf};

/// A constant feed of 2048 bytes per second, sampled once per second, must
/// bring the smoothed rate within 0.1 bytes per second (100 milli-units) of
/// 2048 bytes per second.
#[test]
fn test_precision() {
    let (mut handle, mut gauge) = gauge();
    const N: usize = 2 << 10;
    const BYTES: u64 = 2 << 10;
    let mut now: u64 = 0;
    for _ in 0..N {
        gauge.update(BYTES);
        handle.update(&mut gauge, now);
        now += 1000;
    }
    let rate_milli = handle.thruput() as i64;
    assert!((rate_milli - 2048_000).abs() < 100);
}

#[test]
fn adds_then_drain_returns_exact_sum() {
    let mut g = Gauge::new();
    g.update(1);
    g.update(2);
    g.update(3);
    g.update(0);
    assert_eq!(g.drain(), 6);
    assert_eq!(g.drain(), 0);
}

#[test]
fn counter_saturates_instead_of_wrapping() {
    let mut g = Gauge::new();
    g.update(u64::MAX);
    g.update(5);
    assert_eq!(g.drain(), u64::MAX);
    assert_eq!(g.drain(), 0);
}

#[test]
fn second_sample_at_same_timestamp_is_noop() {
    let (mut h, mut g) = gauge();
    h.update(&mut g, 0);
    g.update(500);
    h.update(&mut g, 1000);
    let rate = h.thruput();
    let total = h.total_bytes();
    assert_eq!(total, 500);
    // Bytes arriving between the two calls stay in the counter: an
    // inactive sample drains nothing and changes nothing.
    g.update(7);
    h.update(&mut g, 1000);
    assert_eq!(h.thruput(), rate);
    assert_eq!(h.total_bytes(), total);
    assert_eq!(g.drain(), 7);
}

#[test]
fn total_bytes_never_decreases() {
    let (mut h, mut g) = gauge();
    let mut last = h.total_bytes();
    let steps: [(u64, u64); 6] = [(0, 100), (10, 1000), (0, 2000), (5, 2000), (9, 3000), (0, 500)];
    let mut now: u64 = 0;
    for (bytes, advance) in steps {
        g.update(bytes);
        now = now.wrapping_add(advance);
        h.update(&mut g, now);
        let total = h.total_bytes();
        assert!(total >= last);
        last = total;
    }
}

#[test]
fn sampler_total_saturates() {
    let (mut h, mut g) = gauge();
    h.update(&mut g, 0);
    g.update(u64::MAX);
    h.update(&mut g, 1000);
    assert_eq!(h.total_bytes(), u64::MAX);
    g.update(1);
    h.update(&mut g, 2000);
    assert_eq!(h.total_bytes(), u64::MAX);
}

#[test]
fn partial_write_reports_accepted_count() {
    // A write offered 10 bytes of which the stream accepted only 3 must be
    // tallied as 3, never as the requested 10.
    let mut half = WriteHalf::new((), Gauge::new());
    half.observe_write(&WriteOutcome::Accepted { count: 3 });
    assert_eq!(half.drain(), 3);
    half.observe_write(&WriteOutcome::Pending);
    half.observe_write(&WriteOutcome::Failed);
    assert_eq!(half.drain(), 0);
}

#[test]
fn end_of_stream_reads_report_zero() {
    let mut half = ReadHalf::new((), Gauge::new());
    half.observe_read(&ReadOutcome::Completed { filled: 5 });
    // End of stream is a successful zero-byte completion: it is reported,
    // and reporting it again after end of stream is defined and adds 0.
    half.observe_read(&ReadOutcome::Completed { filled: 0 });
    half.observe_read(&ReadOutcome::Completed { filled: 0 });
    half.observe_read(&ReadOutcome::Pending);
    half.observe_read(&ReadOutcome::Failed);
    assert_eq!(half.drain(), 5);
    assert_eq!(half.drain(), 0);
}

#[test]
fn sixteen_period_window_converges() {
    // The explicit form of the default construction: alpha = 2/17, matching
    // a 16-period window; 2048 samples of 2048 bytes at one-second spacing
    // must land within 0.1 bytes per second of 2048.0.
    let (mut h, mut g) = gauge_with_alpha(2, 17).unwrap();
    let mut now: u64 = 0;
    for _ in 0..2048 {
        g.update(2048);
        if h.would_sample(now) {
            let drained = g.drain();
            h.sample_with(now, drained);
        } else {
            h.sample_with(now, 0);
        }
        now += 1000;
    }
    let rate_milli = h.thruput() as i64;
    assert!((rate_milli - 2048_000).abs() < 100);
}

#[test]
fn alpha_outside_unit_interval_is_rejected() {
    assert!(gauge_with_alpha(0, 5).is_none());
    assert!(gauge_with_alpha(0, 0).is_none());
    assert!(gauge_with_alpha(6, 5).is_none());
    assert!(gauge_with_alpha(5, 5).is_some());
    assert!(gauge_with_alpha(1, u64::MAX).is_some());
}

#[test]
fn fresh_sampler_reads_zero() {
    let (h, _g) = gauge();
    assert_eq!(h.thruput(), 0);
    assert_eq!(h.total_bytes(), 0);
}

#[test]
fn duplex_directions_are_counted_independently() {
    let mut ws = WholeStream::new((), ReadGauge(Gauge::new()), WriteGauge(Gauge::new()));
    ws.observe_read(&ReadOutcome::Completed { filled: 10 });
    ws.observe_write(&WriteOutcome::Accepted { count: 4 });
    ws.observe_read(&ReadOutcome::Pending);
    ws.observe_write(&WriteOutcome::Failed);
    assert_eq!(ws.drain_read(), 10);
    assert_eq!(ws.drain_written(), 4);
    assert_eq!(ws.drain_read(), 0);
    assert_eq!(ws.drain_written(), 0);
}

#[test]
fn unsmoothed_sampler_tracks_instantaneous_rate() {
    // With alpha = 1/1 the smoothed rate equals each instantaneous rate.
    let (mut h, mut g) = gauge_with_alpha(1, 1).unwrap();
    h.update(&mut g, 0);
    g.update(1000);
    h.update(&mut g, 1000);
    // 1000 bytes over one second: 1000.000 bytes per second.
    assert_eq!(h.thruput(), 1_000_000);
    // An idle second drives the rate to zero.
    h.update(&mut g, 2000);
    assert_eq!(h.thruput(), 0);
    // 2048 bytes over four seconds count once, as 512 bytes per second.
    g.update(2048);
    h.update(&mut g, 6000);
    assert_eq!(h.thruput(), 512_000);
}

#[test]
fn smoothed_rate_stays_between_observed_rates() {
    // Instantaneous rates alternate between 0 and 2000 bytes per second;
    // the smoothed estimate must stay within that envelope.
    let (mut h, mut g) = gauge_with_alpha(3, 7).unwrap();
    let mut now: u64 = 0;
    for i in 0..100 {
        if i % 2 == 0 {
            g.update(2000);
        }
        h.update(&mut g, now);
        now += 1000;
        let rate = h.thruput();
        assert!(rate <= 2_000_000);
    }
}

#[test]
fn rate_caps_at_maximum_representable() {
    let (mut h, _g) = gauge_with_alpha(1, 1).unwrap();
    h.sample_with(0, 0);
    h.sample_with(1, u64::MAX);
    assert_eq!(h.thruput(), u64::MAX);
}
