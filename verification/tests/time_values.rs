use microtime::Duration;
use microtime::MonotonicTime;
use microtime::RealTime;
use microtime::TimeError;

#[test]
fn realtime_systemtime_round_trip() {
    let us: u64 = 10_000_001;
    let m_rt: RealTime = RealTime::zero().add_duration(Duration::from_micros(us));
    let s_rt: std::time::SystemTime = m_rt.to_system_time().unwrap();
    let m_rt2: RealTime = RealTime::from_system_time(s_rt).unwrap();

    assert_eq!(us, m_rt2.sub(RealTime::zero()).as_micros());
}

#[test]
fn monotonic_duration_round_trip() {
    let us: u64 = 10_000_001;
    let m_t: MonotonicTime = MonotonicTime::zero().add_duration(Duration::from_micros(us));
    let s_t: core::time::Duration = m_t.to_core_duration();
    let m_t2 = MonotonicTime::from_core_duration(s_t);

    assert_eq!(us, m_t2.as_micros());
}

#[test]
fn monotonic_external_duration_has_exact_parts() {
    let d = MonotonicTime::from_micros(10_000_001).to_core_duration();
    assert_eq!(d, core::time::Duration::new(10, 1_000));
}

#[test]
fn realtime_external_timestamp_is_epoch_plus_offset() {
    let ts = RealTime::from_micros(10_000_001).to_system_time().unwrap();
    assert_eq!(ts, std::time::UNIX_EPOCH + core::time::Duration::new(10, 1_000));
}

#[test]
fn sub_microsecond_remainder_is_truncated_on_import() {
    let exact = MonotonicTime::from_core_duration(core::time::Duration::new(1, 999_999_000));
    assert_eq!(exact.as_micros(), 1_999_999);

    let truncated = MonotonicTime::from_core_duration(core::time::Duration::new(1, 2_500));
    assert_eq!(truncated.as_micros(), 1_000_002);

    let below_one_micro = MonotonicTime::from_core_duration(core::time::Duration::new(1, 999));
    assert_eq!(below_one_micro.as_micros(), 1_000_000);
}

#[test]
fn pre_epoch_timestamp_is_rejected() {
    let ts = std::time::UNIX_EPOCH - core::time::Duration::from_micros(1);
    assert_eq!(RealTime::from_system_time(ts), Err(TimeError::BeforeEpoch));
}

#[test]
fn epoch_itself_reads_back_as_zero() {
    let rt = RealTime::from_system_time(std::time::UNIX_EPOCH).unwrap();
    assert_eq!(rt, RealTime::zero());
}

#[test]
fn far_future_timestamp_is_rejected() {
    let far = core::time::Duration::from_secs(20_000_000_000_000);
    let ts = std::time::UNIX_EPOCH + far;
    assert_eq!(RealTime::from_system_time(ts), Err(TimeError::OutOfRange));
}

#[test]
fn duration_scaling_is_exact() {
    assert_eq!(Duration::from_seconds(1).as_micros(), 1_000_000);
    assert_eq!(Duration::from_milliseconds(1).as_micros(), 1_000);
    assert_eq!(Duration::from_micros(7).as_micros(), 7);
    assert_eq!(Duration::zero().as_micros(), 0);
}

#[test]
fn instant_scaling_is_exact() {
    assert_eq!(MonotonicTime::from_seconds(2).as_micros(), 2_000_000);
    assert_eq!(MonotonicTime::from_millis(3).as_micros(), 3_000);
    assert_eq!(MonotonicTime::zero().as_micros(), 0);
    assert_eq!(RealTime::from_seconds(2).as_micros(), 2_000_000);
    assert_eq!(RealTime::from_millis(3).as_micros(), 3_000);
    assert_eq!(RealTime::zero().as_micros(), 0);
}

#[test]
fn duration_sub_then_add_restores() {
    let d1 = Duration::from_micros(10_000_000);
    let d2 = Duration::from_micros(1_234_567);
    assert_eq!(d1.sub(d2).add(d2), d1);
}

#[test]
fn duration_add_sums_micros() {
    let s = Duration::from_seconds(1).add(Duration::from_micros(10));
    assert_eq!(s.as_micros(), 1_000_010);
}

#[test]
fn instant_arithmetic_stays_in_domain() {
    let a = MonotonicTime::from_micros(10);
    let b = a.add_duration(Duration::from_micros(5));
    assert_eq!(b.as_micros(), 15);
    assert_eq!(b.sub(a).as_micros(), 5);

    let c = RealTime::from_micros(100);
    let d = c.add_duration(Duration::from_micros(50));
    assert_eq!(d.as_micros(), 150);
    assert_eq!(d.sub(c).as_micros(), 50);
}

#[test]
fn external_duration_shifts_forward_with_truncation() {
    let shift = core::time::Duration::new(1, 2_500);
    assert_eq!(MonotonicTime::from_micros(5).add_core_duration(shift).as_micros(), 1_000_007);
    assert_eq!(RealTime::from_micros(5).add_core_duration(shift).as_micros(), 1_000_007);
}

#[test]
fn ordering_follows_micros() {
    assert!(Duration::from_micros(1) < Duration::from_micros(2));
    assert!(Duration::from_micros(2) > Duration::from_micros(1));
    assert!(Duration::from_micros(2) >= Duration::from_micros(2));
    assert_eq!(Duration::from_micros(5), Duration::from_micros(5));
    assert_ne!(Duration::from_micros(5), Duration::from_micros(6));

    assert!(MonotonicTime::from_micros(1) < MonotonicTime::from_micros(2));
    assert!(MonotonicTime::from_micros(3) <= MonotonicTime::from_micros(3));
    assert_eq!(MonotonicTime::from_micros(5), MonotonicTime::from_micros(5));

    assert!(RealTime::from_micros(1) < RealTime::from_micros(2));
    assert!(RealTime::from_micros(4) > RealTime::from_micros(2));
    assert_eq!(RealTime::from_micros(5), RealTime::from_micros(5));
}
