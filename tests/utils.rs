use rustic_mountain::utils::{appr, max, mid, min, sign, split_hundredths};

#[test]
fn sign_of_values() {
    assert_eq!(sign(-7), -1);
    assert_eq!(sign(0), 0);
    assert_eq!(sign(3), 1);
}

#[test]
fn appr_never_overshoots() {
    assert_eq!(appr(0, 10, 3), 3);
    assert_eq!(appr(9, 10, 3), 10);
    assert_eq!(appr(10, 0, 4), 6);
    assert_eq!(appr(2, 0, 4), 0);
    assert_eq!(appr(5, 5, 4), 5);
    assert_eq!(appr(i32::MIN, 0, i32::MAX), -1);
}

#[test]
fn mid_min_max() {
    assert_eq!(mid(0, 5, 10), 5);
    assert_eq!(mid(0, -5, 10), 0);
    assert_eq!(mid(0, 50, 10), 10);
    assert_eq!(mid(1, 2, 0), 1);
    assert_eq!(mid(10, 0, 5), 5);
    assert_eq!(mid(3, 3, 1), 3);
    assert_eq!(min(3, -2), -2);
    assert_eq!(max(3, -2), 3);
}

#[test]
fn hundredths_round_to_nearest_pixel() {
    assert_eq!(split_hundredths(65), (1, -35));
    assert_eq!(split_hundredths(49), (0, 49));
    assert_eq!(split_hundredths(50), (1, -50));
    assert_eq!(split_hundredths(-50), (0, -50));
    assert_eq!(split_hundredths(-51), (-1, 49));
    assert_eq!(split_hundredths(1300), (13, 0));
}
