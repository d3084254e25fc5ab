use rslock::drift::drift_allowance;

fn in_single_precision(ttl: usize) -> usize {
    (ttl as f32 * 0.01f32) as usize + 2
}

#[test]
fn the_allowance_is_one_percent_and_two_milliseconds() {
    assert_eq!(drift_allowance(0), 2);
    assert_eq!(drift_allowance(1), 2);
    assert_eq!(drift_allowance(99), 2);
    assert_eq!(drift_allowance(100), 3);
    assert_eq!(drift_allowance(1_000), 12);
    assert_eq!(drift_allowance(10_000), 102);
    assert_eq!(drift_allowance(12_345), 125);
    assert_eq!(drift_allowance(16_777_215), 167_774);
    // Beyond 2^24 single precision rounds
    assert_eq!(drift_allowance(16_777_299), 167_774 + 1);
}

#[test]
fn the_allowance_is_what_single_precision_gives() {
    for ttl in 0..300_000 {
        assert_eq!(drift_allowance(ttl), in_single_precision(ttl), "{}", ttl);
    }
    for shift in 18..64 {
        let power = 1usize << shift;
        for step in 0..2_000usize {
            let offset = step * (power / 4_099 + 1);
            for ttl in vec![power.wrapping_add(offset), power.wrapping_sub(step)] {
                assert_eq!(drift_allowance(ttl), in_single_precision(ttl), "{}", ttl);
            }
        }
    }
    assert_eq!(drift_allowance(usize::MAX), in_single_precision(usize::MAX));
}

#[test]
fn the_allowance_stays_near_one_percent() {
    let mut ttl: usize = 1;
    while ttl < usize::MAX / 3 {
        let drift = drift_allowance(ttl) as u128;
        assert!(99 * (drift - 2) <= ttl as u128);
        assert!(ttl as u128 <= 101 * (drift - 1));
        ttl = ttl * 3 + 1;
    }
}
