use netdir_core::retry::{RetryConfig, RetryDelay, MAX_LOW_BOUND, MIN_LOW_BOUND};
use rand::rngs::StdRng;
use rand::SeedableRng;
use std::time::Duration;

#[test]
fn init() {
    let rd = RetryDelay::from_msec(2000);
    assert_eq!(rd.last_delay_ms(), 0);
    assert_eq!(rd.low_bound_ms(), 2000);

    let rd = RetryDelay::from_msec(0);
    assert_eq!(rd.last_delay_ms(), 0);
    assert_eq!(rd.low_bound_ms(), 1000);

    let rd = RetryDelay::from_duration(Duration::new(1, 500_000_000));
    assert_eq!(rd.last_delay_ms(), 0);
    assert_eq!(rd.low_bound_ms(), 1500);
}

#[test]
fn bounds() {
    let mut rd = RetryDelay::from_msec(1000);
    assert_eq!(rd.delay_bounds(), (1000, 1001));
    rd.set_last_delay_ms(1500);
    assert_eq!(rd.delay_bounds(), (1000, 4500));
    rd.set_last_delay_ms(3_000_000_000);
    assert_eq!(rd.delay_bounds(), (1000, std::u32::MAX));
}

#[test]
fn rng() {
    let mut rd = RetryDelay::from_msec(50);
    let real_low_bound = std::cmp::max(50, MIN_LOW_BOUND);

    let mut rng = StdRng::from_entropy();
    for _ in 1..100 {
        let (b_lo, b_hi) = rd.delay_bounds();
        assert!(b_lo == real_low_bound);
        assert!(b_hi > b_lo);
        let delay = rd.next_delay(&mut rng).as_millis() as u32;
        assert_eq!(delay, rd.last_delay_ms());
        assert!(delay >= b_lo);
        assert!(delay < b_hi);
    }
}

#[test]
fn floor_is_clamped_at_both_ends() {
    assert_eq!(RetryDelay::from_msec(999).low_bound_ms(), 1000);
    assert_eq!(RetryDelay::from_msec(1000).low_bound_ms(), 1000);
    assert_eq!(RetryDelay::from_msec(1001).low_bound_ms(), 1001);
    assert_eq!(RetryDelay::from_msec(u32::MAX - 1).low_bound_ms(), u32::MAX - 1);
    assert_eq!(RetryDelay::from_msec(u32::MAX).low_bound_ms(), MAX_LOW_BOUND);
    assert_eq!(RetryDelay::default().low_bound_ms(), 1000);
    assert_eq!(RetryDelay::default().last_delay_ms(), 0);
}

#[test]
fn long_durations_take_the_largest_floor() {
    let rd = RetryDelay::from_duration(Duration::from_secs(10_000_000));
    assert_eq!(rd.low_bound_ms(), u32::MAX - 1);
    assert_eq!(rd.delay_bounds(), (u32::MAX - 1, u32::MAX));
    let rd = RetryDelay::from_duration(Duration::new(0, 999_999));
    assert_eq!(rd.low_bound_ms(), 1000);
}

#[test]
fn high_bound_is_three_times_the_last_delay() {
    let mut rd = RetryDelay::from_msec(2000);
    rd.set_last_delay_ms(666);
    assert_eq!(rd.delay_bounds(), (2000, 2001));
    rd.set_last_delay_ms(667);
    assert_eq!(rd.delay_bounds(), (2000, 2001));
    rd.set_last_delay_ms(668);
    assert_eq!(rd.delay_bounds(), (2000, 2004));
    rd.set_last_delay_ms(1_431_655_765);
    assert_eq!(rd.delay_bounds(), (2000, u32::MAX));
    rd.set_last_delay_ms(1_431_655_766);
    assert_eq!(rd.delay_bounds(), (2000, u32::MAX));
    assert_eq!(rd.low_bound_ms(), 2000);
}

#[test]
fn first_delay_is_the_floor() {
    let mut rng = StdRng::seed_from_u64(7);
    let mut rd = RetryDelay::from_msec(1234);
    assert_eq!(rd.next_delay_msec(&mut rng), 1234);
    assert_eq!(rd.last_delay_ms(), 1234);
    assert_eq!(rd.delay_bounds(), (1234, 3702));
}

#[test]
fn delays_vary_with_the_generator() {
    // A wrapper that handed back one of its bounds would give a constant
    // sequence; a real draw from [1000, 3000) does not.
    let mut rng = StdRng::seed_from_u64(42);
    let mut seen_other = false;
    for _ in 0..50 {
        let mut rd = RetryDelay::from_msec(1000);
        rd.set_last_delay_ms(1000);
        let d = rd.next_delay_msec(&mut rng);
        assert!((1000..3000).contains(&d));
        if d != 1000 {
            seen_other = true;
        }
    }
    assert!(seen_other);
}

#[test]
fn same_seed_gives_the_same_delays() {
    let mut a = StdRng::seed_from_u64(99);
    let mut b = StdRng::seed_from_u64(99);
    let mut ra = RetryDelay::from_msec(1000);
    let mut rb = RetryDelay::from_msec(1000);
    for _ in 0..20 {
        assert_eq!(ra.next_delay(&mut a), rb.next_delay(&mut b));
    }
}

#[test]
fn next_delay_reports_the_recorded_delay() {
    let mut rng = StdRng::seed_from_u64(5);
    let mut rd = RetryDelay::from_msec(1000);
    rd.set_last_delay_ms(5000);
    let d = rd.next_delay(&mut rng);
    assert_eq!(d, Duration::from_millis(rd.last_delay_ms() as u64));
    assert!(d >= Duration::from_millis(1000));
    assert!(d < Duration::from_millis(15000));
}

#[test]
fn config_makes_at_least_one_attempt() {
    let c = RetryConfig::new(0, Duration::from_millis(10));
    assert_eq!(c.n_attempts(), 1);
    assert_eq!(c.attempts().collect::<Vec<u32>>(), vec![0]);
    let c = RetryConfig::new(5, Duration::from_millis(2500));
    assert_eq!(c.n_attempts(), 5);
    assert_eq!(c.attempts().collect::<Vec<u32>>(), vec![0, 1, 2, 3, 4]);
    assert_eq!(c.attempts().collect::<Vec<u32>>(), vec![0, 1, 2, 3, 4]);
    assert_eq!(c.initial_delay(), Duration::from_millis(2500));
}

#[test]
fn config_schedule_starts_from_the_initial_delay() {
    let c = RetryConfig::new(5, Duration::from_millis(2500));
    let rd = c.schedule();
    assert_eq!(rd.low_bound_ms(), 2500);
    assert_eq!(rd.last_delay_ms(), 0);
    let rd = RetryConfig::new(2, Duration::from_millis(3)).schedule();
    assert_eq!(rd.low_bound_ms(), 1000);
}

#[test]
fn default_config() {
    let c = RetryConfig::default();
    assert_eq!(c.n_attempts(), 3);
    assert_eq!(c.initial_delay(), Duration::from_millis(1000));
    assert_eq!(c.schedule().delay_bounds(), (1000, 1001));
}
