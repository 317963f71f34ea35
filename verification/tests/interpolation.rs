use uma::scraping::interpolation::{interpolation_fits_at, row_is_in_columns};
use uma::models::support_card::Rarity;
use uma::scraping::interpolation::{interpolate_effect, lb_levels_for_rarity};

#[test]
fn interpolate_effect_exact_breakpoint() {
    let values = vec![5, -1, -1, 10, 10, -1, -1, 15, -1, -1, -1];
    assert_eq!(interpolate_effect(&values, 20), 10);
}

#[test]
fn interpolate_effect_between_breakpoints() {
    let values = vec![5, -1, -1, 10, 10, -1, -1, 15, -1, -1, -1];
    assert_eq!(interpolate_effect(&values, 30), 13);
}

#[test]
fn interpolate_effect_below_first_breakpoint() {
    let values = vec![-1, -1, -1, -1, 10, -1, -1, -1, -1, -1, -1];
    assert_eq!(interpolate_effect(&values, 1), 0);
}

#[test]
fn interpolate_effect_clamps_above_last_breakpoint() {
    let values = vec![5, -1, -1, 10, 10, -1, -1, 15, -1, -1, -1];
    assert_eq!(interpolate_effect(&values, 50), 15);
}

#[test]
fn interpolate_effect_without_breakpoints_is_zero() {
    let values = vec![-1; 11];
    assert_eq!(interpolate_effect(&values, 30), 0);
}

#[test]
fn interpolate_effect_floors_decreasing_segments() {
    // From 10 at level 1 down to 0 at level 5: at level 2, floor(10 - 10 / 4) = floor(7.5) = 7.
    let values = vec![10, 0, -1, -1, -1, -1, -1, -1, -1, -1, -1];
    assert_eq!(interpolate_effect(&values, 2), 7);
}

#[test]
fn interpolate_effect_floors_long_decreasing_segment() {
    // From 10 at level 1 down to 0 at level 20: at level 5, floor(10 - 40 / 19) = floor(7.89) = 7.
    let values = vec![10, -1, -1, -1, 0, -1, -1, -1, -1, -1, -1];
    assert_eq!(interpolate_effect(&values, 5), 7);
}

#[test]
fn interpolate_effect_exact_quotient_on_decreasing_segment() {
    // From 10 at level 1 down to 2 at level 5: at level 3, 10 - 8 * 2 / 4 = 6 exactly.
    let values = vec![10, 2, -1, -1, -1, -1, -1, -1, -1, -1, -1];
    assert_eq!(interpolate_effect(&values, 3), 6);
}

#[test]
fn lb_levels_follow_rarity() {
    assert_eq!(lb_levels_for_rarity(&Rarity::R), [20, 25, 30, 35, 40]);
    assert_eq!(lb_levels_for_rarity(&Rarity::SR), [25, 30, 35, 40, 45]);
    assert_eq!(lb_levels_for_rarity(&Rarity::SSR), [30, 35, 40, 45, 50]);
}

#[test]
fn interpolated_values_stay_between_their_breakpoints() {
    let values = vec![5, -1, -1, 10, 10, -1, -1, 15, -1, -1, -1];
    for level in 21..35 {
        let v = interpolate_effect(&values, level);
        assert!((10..=15).contains(&v));
    }
    let falling = vec![50, -1, -1, 10, -1, -1, -1, -1, -1, -1, -1];
    for level in 2..15 {
        let v = interpolate_effect(&falling, level);
        assert!((10..=50).contains(&v));
    }
}

#[test]
fn row_checks() {
    assert!(row_is_in_columns(&[5, -1, 3]));
    assert!(row_is_in_columns(&[-1; 13]));
    let mut long = vec![-1; 12];
    long[11] = 4;
    assert!(!row_is_in_columns(&long));
    let huge = vec![i64::MIN, i64::MAX, -1, -1, -1, -1, -1, -1, -1, -1, -1];
    assert!(!interpolation_fits_at(&huge, 3));
    assert!(interpolation_fits_at(&huge, 1));
}
