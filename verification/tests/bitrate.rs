use vidfit::bitrate::{
    adjust_bitrate, calculate_bitrate, check_within_tolerance, LARGE_ERROR_BYTES,
    MEDIUM_ERROR_BYTES,
};

const MB: u64 = 1048576;

#[test]
fn calculate_bitrate_matches_formula() {
    // 10 MB over 100 s: 10 * 8 * 1024 * 1024 / 100 = 838860.8 bits/s,
    // which the integer formula floors to 838860.
    assert_eq!(calculate_bitrate(10 * MB, 100_000), 838_860);
    // One byte per second: exactly 8 bits/s.
    assert_eq!(calculate_bitrate(1_000_000, 1_000_000_000), 8);
}

#[test]
fn calculate_bitrate_is_idempotent() {
    let first = calculate_bitrate(10 * MB, 100_000);
    let second = calculate_bitrate(10 * MB, 100_000);
    assert_eq!(first, second);
    let third = calculate_bitrate(7 * MB, 123_456);
    let fourth = calculate_bitrate(7 * MB, 123_456);
    assert_eq!(third, fourth);
}

#[test]
fn adjust_large_oversize_steps_down_twenty_percent() {
    // Target 10 MB, measured 45 MB: error 35 MB >= 30 MB, so scale by 0.80.
    assert_eq!(adjust_bitrate(1_000_000, 45 * MB, 10 * MB), 800_000);
}

#[test]
fn adjust_small_undersize_steps_up_ten_percent() {
    // Target 10 MB, measured 3 MB: error 7 MB < 8.5 MB, so scale by 1.10.
    assert_eq!(adjust_bitrate(1_000_000, 3 * MB, 10 * MB), 1_100_000);
}

#[test]
fn adjust_medium_brackets() {
    // Errors between 8.5 MB and 30 MB scale by 0.85 or 1.15.
    assert_eq!(adjust_bitrate(1_000_000, 20 * MB, 10 * MB), 850_000);
    assert_eq!(adjust_bitrate(1_000_000, 10 * MB, 20 * MB), 1_150_000);
}

#[test]
fn adjust_boundary_selects_larger_step() {
    let target = 100 * MB;
    // Exactly 30 MB over: the largest step, not the medium one.
    assert_eq!(adjust_bitrate(1_000_000, target + LARGE_ERROR_BYTES, target), 800_000);
    // One byte under that edge: the medium step.
    assert_eq!(adjust_bitrate(1_000_000, target + LARGE_ERROR_BYTES - 1, target), 850_000);
    // Exactly 8.5 MB over: the medium step, not the small one.
    assert_eq!(adjust_bitrate(1_000_000, target + MEDIUM_ERROR_BYTES, target), 850_000);
    // One byte under that edge: the small step.
    assert_eq!(adjust_bitrate(1_000_000, target + MEDIUM_ERROR_BYTES - 1, target), 900_000);
    // The same edges on the undersized side.
    assert_eq!(adjust_bitrate(1_000_000, target - LARGE_ERROR_BYTES, target), 1_200_000);
    assert_eq!(adjust_bitrate(1_000_000, target - LARGE_ERROR_BYTES + 1, target), 1_150_000);
    assert_eq!(adjust_bitrate(1_000_000, target - MEDIUM_ERROR_BYTES, target), 1_150_000);
    assert_eq!(adjust_bitrate(1_000_000, target - MEDIUM_ERROR_BYTES + 1, target), 1_100_000);
}

#[test]
fn adjust_rounds_to_nearest() {
    // 999 * 0.80 = 799.2 rounds to 799; 999 * 1.10 = 1098.9 rounds to 1099.
    assert_eq!(adjust_bitrate(999, 45 * MB, 10 * MB), 799);
    assert_eq!(adjust_bitrate(999, 3 * MB, 10 * MB), 1099);
}

#[test]
fn adjust_keeps_bitrate_positive() {
    // Even a one-bit-per-second estimate stays positive when scaled down.
    assert_eq!(adjust_bitrate(1, 45 * MB, 10 * MB), 1);
}

#[test]
fn tolerance_check_is_symmetric_and_inclusive() {
    assert!(check_within_tolerance(10 * MB, 10 * MB, 0));
    assert!(check_within_tolerance(10 * MB + 512, 10 * MB, 512));
    assert!(check_within_tolerance(10 * MB - 512, 10 * MB, 512));
    assert!(!check_within_tolerance(10 * MB + 513, 10 * MB, 512));
    assert!(!check_within_tolerance(10 * MB - 513, 10 * MB, 512));
}
