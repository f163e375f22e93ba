use memops_bench::timing::{tsc_from_halves, Step, TimingStats};

#[test]
fn halves_combine() {
    assert_eq!(tsc_from_halves(0, 0), 0);
    assert_eq!(tsc_from_halves(0x89AB_CDEF, 0x0123_4567), 0x0123_4567_89AB_CDEF);
    assert_eq!(tsc_from_halves(u32::MAX, u32::MAX), u64::MAX);
}

#[test]
fn zero_iterations_report_at_once() {
    let (stats, step) = TimingStats::start(0);
    assert_eq!(step, Step::Report);
    assert_eq!(stats.count(), 0);
    assert_eq!(stats.total(), 0);
    assert_eq!(stats.max(), 0);
    assert_eq!(stats.min(), u64::MAX);
}

#[test]
fn statistics_over_samples() {
    let (mut stats, step) = TimingStats::start(3);
    assert_eq!(step, Step::Measure);
    assert_eq!(stats.advance(Some(40)), Step::Measure);
    assert_eq!(stats.advance(Some(10)), Step::Measure);
    assert_eq!(stats.advance(Some(25)), Step::Report);
    assert_eq!(stats.count(), 3);
    assert_eq!(stats.iterations(), 3);
    assert_eq!(stats.total(), 75);
    assert_eq!(stats.max(), 40);
    assert_eq!(stats.min(), 10);
}

#[test]
fn unavailable_implementation_is_skipped() {
    let (mut stats, _) = TimingStats::start(5);
    assert_eq!(stats.advance(Some(7)), Step::Measure);
    assert_eq!(stats.advance(None), Step::Skip);
    assert_eq!(stats.count(), 1);
    assert_eq!(stats.total(), 7);
}

#[test]
fn total_does_not_overflow_with_large_samples() {
    let (mut stats, _) = TimingStats::start(4);
    for _ in 0..3 {
        assert_eq!(stats.advance(Some(u64::MAX)), Step::Measure);
    }
    assert_eq!(stats.advance(Some(u64::MAX)), Step::Report);
    assert_eq!(stats.total(), 4 * (u64::MAX as u128));
    assert_eq!(stats.min(), u64::MAX);
    assert_eq!(stats.max(), u64::MAX);
}
