use colorscheme::hue::{Hue, DEGREE, FULL_TURN};

#[test]
fn test_sub() {
    let h = Hue::new(90 * DEGREE);
    let new = h - 120 * DEGREE;
    assert_eq!(330 * DEGREE, new.value());
}

#[test]
fn test_add() {
    let h = Hue::new(270 * DEGREE);
    let new = h + 120 * DEGREE;
    assert_eq!(30 * DEGREE, new.value());
}

#[test]
fn new_wraps_and_never_clamps() {
    assert_eq!(Hue::new(0).value(), 0);
    assert_eq!(Hue::new(FULL_TURN).value(), 0);
    assert_eq!(Hue::new(FULL_TURN - 1).value(), 359_999);
    assert_eq!(Hue::new(-1).value(), 359_999);
    assert_eq!(Hue::new(370 * DEGREE).value(), 10 * DEGREE);
    assert_eq!(Hue::new(-20 * DEGREE).value(), 340 * DEGREE);
    assert_eq!(Hue::new(1_000 * DEGREE).value(), 280 * DEGREE);
    assert_eq!(Hue::new(-1_000 * DEGREE).value(), 80 * DEGREE);
    assert_eq!(Hue::new(i64::MAX).value(), i64::MAX.rem_euclid(FULL_TURN));
    assert_eq!(Hue::new(i64::MIN).value(), i64::MIN.rem_euclid(FULL_TURN));
}

#[test]
fn addition_and_subtraction_wrap_at_the_boundary() {
    assert_eq!((Hue::new(350 * DEGREE) + 20 * DEGREE).value(), 10 * DEGREE);
    assert_eq!((Hue::new(10 * DEGREE) - 20 * DEGREE).value(), 350 * DEGREE);
    assert_eq!((Hue::new(180 * DEGREE) + 280 * DEGREE).value(), 100 * DEGREE);
    assert_eq!((Hue::new(180 * DEGREE) - 300 * DEGREE).value(), 240 * DEGREE);
    assert_eq!((Hue::new(270 * DEGREE) + 90 * DEGREE).value(), 0);
    assert_eq!((Hue::new(90 * DEGREE) + (-120 * DEGREE)).value(), 330 * DEGREE);
    assert_eq!((Hue::new(1) + i64::MAX).value(), (1 + i64::MAX.rem_euclid(FULL_TURN)) % FULL_TURN);
    assert_eq!((Hue::new(1) - i64::MIN).value(), (1 - i64::MIN.rem_euclid(FULL_TURN)).rem_euclid(FULL_TURN));
}

#[test]
fn results_stay_within_one_turn() {
    let offsets = [0, 1, -1, 359_999, 360_000, 360_001, -360_000, 720_500, -1_234_567, i64::MAX, i64::MIN];
    let hues = [0, 1, 90 * DEGREE, 180 * DEGREE, 359_999];
    for h in hues {
        for o in offsets {
            let up = (Hue::new(h) + o).value();
            let down = (Hue::new(h) - o).value();
            assert!(0 <= up && up < FULL_TURN);
            assert!(0 <= down && down < FULL_TURN);
        }
    }
}

#[test]
fn back_and_forth_returns_to_the_start() {
    let offsets = [0, 1, -1, 120 * DEGREE, 360_000, 725_123, -1_234_567, i64::MAX, i64::MIN];
    let hues = [0, 1, 90 * DEGREE, 180 * DEGREE, 359_999];
    for h in hues {
        for o in offsets {
            let hue = Hue::new(h);
            assert_eq!((hue - o) + o, hue);
            assert_eq!((hue + o) - o, hue);
        }
    }
}

#[test]
fn hues_convert_from_and_into_angles() {
    assert_eq!(Hue::from(450 * DEGREE), Hue::new(90 * DEGREE));
    assert_eq!(Hue::from(-90 * DEGREE).value(), 270 * DEGREE);
    let angle: i64 = Hue::new(725 * DEGREE).into();
    assert_eq!(angle, 5 * DEGREE);
    let hue: Hue = (360 * DEGREE).into();
    assert_eq!(i64::from(hue), 0);
}
