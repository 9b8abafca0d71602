use tower_defense::distance::{in_range, nearest_in_range, INFINITE};

fn keys_of(distances: &[f32]) -> Vec<u32> {
    distances.iter().map(|d| d.to_bits()).collect()
}

/// What the engine side would pick with numbers: the first least distance
/// among those not above the range.
fn nearest_by_numbers(distances: &[f32], range: f32) -> Option<usize> {
    let mut best: Option<usize> = None;
    for (i, d) in distances.iter().enumerate() {
        if *d <= range {
            match best {
                Some(b) if distances[b] <= *d => {}
                _ => best = Some(i),
            }
        }
    }
    best
}

#[test]
fn infinite_is_the_key_of_infinity() {
    assert_eq!(INFINITE, f32::INFINITY.to_bits());
}

#[test]
fn keys_order_as_numbers_do() {
    let samples = [0.0f32, 1.0e-40, 1.0e-20, 0.3, 0.4, 1.0, 2.5, 9.0, 1.0e10, f32::MAX, f32::INFINITY];
    for a in samples {
        for b in samples {
            assert_eq!(in_range(a.to_bits(), b.to_bits()), a <= b, "{a} <= {b}");
        }
    }
}

#[test]
fn nothing_is_within_a_range_that_is_no_number() {
    let nan = f32::NAN.to_bits();
    assert!(!in_range(0, nan));
    assert!(!in_range(1.0f32.to_bits(), nan));
    assert!(!in_range(nan, nan));
}

#[test]
fn what_is_no_number_is_in_no_range() {
    let nan = f32::NAN.to_bits();
    assert!(!in_range(nan, 1.0f32.to_bits()));
    assert!(!in_range(nan, INFINITE));
}

#[test]
fn range_end_is_included() {
    assert!(in_range(4.0f32.to_bits(), 4.0f32.to_bits()));
    assert!(in_range(INFINITE, INFINITE));
}

#[test]
fn nearest_of_nothing_is_none() {
    assert_eq!(nearest_in_range(&vec![], 25.0f32.to_bits()), None);
}

#[test]
fn nearest_picks_the_least_within_range() {
    let keys = keys_of(&[9.0, 4.0, 30.0, 1.5, 16.0]);
    assert_eq!(nearest_in_range(&keys, 25.0f32.to_bits()), Some(3));
}

#[test]
fn nearest_skips_what_is_out_of_range() {
    let keys = keys_of(&[30.0, 26.0, 25.5]);
    assert_eq!(nearest_in_range(&keys, 25.0f32.to_bits()), None);
    let keys = keys_of(&[30.0, 25.0, 26.0]);
    assert_eq!(nearest_in_range(&keys, 25.0f32.to_bits()), Some(1));
}

#[test]
fn nearest_takes_the_first_of_equals() {
    let keys = keys_of(&[7.0, 2.0, 2.0, 7.0, 2.0]);
    assert_eq!(nearest_in_range(&keys, 25.0f32.to_bits()), Some(1));
}

#[test]
fn nearest_ignores_what_is_no_number() {
    let keys = keys_of(&[f32::NAN, 3.0, f32::NAN]);
    assert_eq!(nearest_in_range(&keys, 25.0f32.to_bits()), Some(1));
    let keys = keys_of(&[f32::NAN, f32::NAN]);
    assert_eq!(nearest_in_range(&keys, f32::INFINITY.to_bits()), None);
}

#[test]
fn nearest_agrees_with_numbers() {
    let lists: [&[f32]; 6] = [
        &[],
        &[0.0],
        &[5.0, 5.0, 4.999, 5.001],
        &[1.0e-30, 0.0, 1.0e-38],
        &[f32::INFINITY, 1.0e30, f32::NAN, 2.0e30],
        &[12.25, 0.09, 0.5, 0.09, 100.0, 24.9],
    ];
    let ranges = [0.0f32, 0.09, 1.0, 5.0, 25.0, 1.0e30, f32::INFINITY, f32::NAN];
    for list in lists {
        for range in ranges {
            assert_eq!(
                nearest_in_range(&keys_of(list), range.to_bits()),
                nearest_by_numbers(list, range),
                "{list:?} within {range}"
            );
        }
    }
}
