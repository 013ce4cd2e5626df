use vibe_asteroid::angle::{cos_milli, dir_vector, rotate_offset, sin_milli, FULL_TURN};

#[test]
fn sine_is_exact_at_the_cardinal_angles() {
    assert_eq!(sin_milli(0), 0);
    assert_eq!(sin_milli(900), 1000);
    assert_eq!(sin_milli(1800), 0);
    assert_eq!(sin_milli(2700), -1000);
}

#[test]
fn cosine_is_exact_at_the_cardinal_angles() {
    assert_eq!(cos_milli(0), 1000);
    assert_eq!(cos_milli(900), 0);
    assert_eq!(cos_milli(1800), -1000);
    assert_eq!(cos_milli(2700), 0);
}

#[test]
fn sine_of_thirty_degrees_is_one_half() {
    // the rational sine approximation is exact at 30 degrees
    assert_eq!(sin_milli(300), 500);
}

#[test]
fn sine_stays_within_one() {
    let mut a: i64 = 0;
    while a < FULL_TURN {
        let s = sin_milli(a);
        let c = cos_milli(a);
        assert!((-1000..=1000).contains(&s));
        assert!((-1000..=1000).contains(&c));
        a += 37;
    }
}

#[test]
fn direction_vector_matches_sine_and_cosine() {
    let v = dir_vector(0);
    assert_eq!(v.x, 1000);
    assert_eq!(v.y, 0);
    let u = dir_vector(900);
    assert_eq!(u.x, 0);
    assert_eq!(u.y, 1000);
}

#[test]
fn rotating_a_quarter_turn_swaps_the_axes() {
    let (x, y) = rotate_offset(1000, 0, 900);
    assert_eq!(x, 0);
    assert_eq!(y, 1000);
    let (x2, y2) = rotate_offset(0, -1000, 900);
    assert_eq!(x2, 1000);
    assert_eq!(y2, 0);
}
