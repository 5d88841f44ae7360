use charliegame::timebase::TimeBase;

#[test]
fn tick_scales_by_frequency() {
    // At 2 Hz one tick is half a second.
    let mut tb = TimeBase::new(2, 0);
    assert_eq!(tb.elapsed_ns, 0);
    let e = tb.tick(3);
    assert_eq!(e, 1_500_000_000);
    assert_eq!(tb.last_raw, 3);
}

#[test]
fn boot_counter_is_credited() {
    // A counter already running at boot counts toward elapsed time.
    let tb = TimeBase::new(1_000, 500);
    assert_eq!(tb.elapsed_ns, 500_000_000);
}

#[test]
fn tick_across_wraparound() {
    // From 0xFFFF_FF00 to 0x10 the counter wraps: 272 ticks, not a huge
    // negative jump.
    let mut tb = TimeBase::new(1_000_000_000, 0xFFFF_FF00);
    let before = tb.elapsed_ns;
    let e = tb.tick(0x10);
    assert_eq!(e - before, 272);
}

#[test]
fn elapsed_never_decreases() {
    let mut tb = TimeBase::new(1_000, 100);
    let mut prev = tb.elapsed_ns;
    let raws: [u32; 6] = [50, 0, u32::MAX, 7, 7, 6];
    for raw in raws {
        let e = tb.tick(raw);
        assert!(e >= prev);
        prev = e;
    }
}

#[test]
fn elapsed_saturates_at_max() {
    // At 1 Hz each full-wrap delta adds ~4.3e18 ns; five of them pass
    // u64::MAX, where the total pins instead of wrapping.
    let mut tb = TimeBase::new(1, 0);
    let mut raw: u32 = 0;
    let mut prev: u64 = 0;
    for _ in 0..5 {
        raw = raw.wrapping_sub(1);
        let e = tb.tick(raw);
        assert!(e >= prev);
        prev = e;
    }
    assert_eq!(prev, u64::MAX);
}
