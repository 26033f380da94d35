use aws_ip_provisioner::jitter::{jitter_seconds, pick_sleep_seconds};

#[test]
fn jitter_zero_bound_means_zero() {
    assert_eq!(jitter_seconds(0, 0), 0);
    assert_eq!(jitter_seconds(12345, 0), 0);
    assert_eq!(jitter_seconds(u32::MAX, 0), 0);
}

#[test]
fn jitter_is_remainder() {
    assert_eq!(jitter_seconds(7, 5), 2);
    assert_eq!(jitter_seconds(4, 5), 4);
    assert_eq!(jitter_seconds(10, 5), 0);
    assert_eq!(jitter_seconds(0, 70), 0);
    assert_eq!(jitter_seconds(71, 70), 1);
}

#[test]
fn jitter_stays_below_bound() {
    let mut random: u32 = 123456789;
    for _ in 0..1000 {
        random = random.wrapping_mul(1664525).wrapping_add(1013904223);
        assert!(jitter_seconds(random, 70) < 70);
        assert!(jitter_seconds(random, 1) == 0);
    }
}

#[test]
fn picked_sleep_zero_bound_means_zero() {
    assert_eq!(pick_sleep_seconds(0), 0);
}

#[test]
fn picked_sleep_bound_of_one_means_zero() {
    for _ in 0..100 {
        assert_eq!(pick_sleep_seconds(1), 0);
    }
}

#[test]
fn picked_sleep_stays_below_bound() {
    for _ in 0..1000 {
        assert!(pick_sleep_seconds(7) < 7);
    }
}

#[test]
fn picked_sleep_varies() {
    let first = pick_sleep_seconds(u32::MAX);
    let mut saw_other = false;
    for _ in 0..100 {
        if pick_sleep_seconds(u32::MAX) != first {
            saw_other = true;
        }
    }
    assert!(saw_other);
}
