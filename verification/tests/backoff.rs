use download_manager::backoff::{retry_backoff, ExponentialBackoff};
use std::time::Duration;

fn backoff(base: Duration, max: Duration) -> ExponentialBackoff {
    ExponentialBackoff { base_delay: base, max_delay: max }
}

#[test]
fn retry_delays_double_from_one_second_up_to_ten() {
    let delays: Vec<Duration> = (0..6).map(|attempt| retry_backoff().next_delay(attempt)).collect();
    assert_eq!(
        delays,
        vec![
            Duration::from_secs(1),
            Duration::from_secs(2),
            Duration::from_secs(4),
            Duration::from_secs(8),
            Duration::from_secs(10),
            Duration::from_secs(10),
        ]
    );
}

#[test]
fn delays_keep_fractions_of_a_second() {
    let backoff = backoff(Duration::from_millis(1_500), Duration::from_secs(60));
    assert_eq!(backoff.next_delay(0), Duration::from_millis(1_500));
    assert_eq!(backoff.next_delay(1), Duration::from_secs(3));
    assert_eq!(backoff.next_delay(5), Duration::from_secs(48));
    assert_eq!(backoff.next_delay(6), Duration::from_secs(60));
    let odd = ExponentialBackoff {
        base_delay: Duration::new(0, 333_333_333),
        max_delay: Duration::from_secs(9),
    };
    assert_eq!(odd.next_delay(3), Duration::new(2, 666_666_664));
}

#[test]
fn any_number_of_attempts_has_a_delay() {
    let max = Duration::from_secs(10);
    assert_eq!(retry_backoff().next_delay(1_000), max);
    assert_eq!(retry_backoff().next_delay(i32::MAX as u32), max);
    assert_eq!(retry_backoff().next_delay(u32::MAX), max);
    let long = backoff(Duration::MAX, Duration::MAX);
    assert_eq!(long.next_delay(0), Duration::MAX);
    assert_eq!(long.next_delay(u32::MAX), Duration::MAX);
}

#[test]
fn a_base_without_length_never_grows() {
    let none = backoff(Duration::ZERO, Duration::from_secs(10));
    assert_eq!(none.next_delay(0), Duration::ZERO);
    assert_eq!(none.next_delay(u32::MAX), Duration::ZERO);
    let nothing = backoff(Duration::ZERO, Duration::ZERO);
    assert_eq!(nothing.next_delay(7), Duration::ZERO);
}

#[test]
fn a_base_above_the_maximum_is_cut_off() {
    let backoff = backoff(Duration::from_secs(20), Duration::from_secs(10));
    assert_eq!(backoff.next_delay(0), Duration::from_secs(10));
}

#[test]
fn later_attempts_never_wait_less() {
    let backoff = backoff(Duration::from_millis(7), Duration::from_secs(3));
    let delays: Vec<Duration> = (0..40).map(|attempt| backoff.next_delay(attempt)).collect();
    assert!(delays.windows(2).all(|pair| pair[0] <= pair[1]));
    assert!(delays.iter().all(|delay| *delay <= Duration::from_secs(3)));
}
