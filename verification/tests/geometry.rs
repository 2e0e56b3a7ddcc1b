use enkalous::geometry::Point;

#[test]
fn new_keeps_both_coordinates() {
    let point = Point::new(-3, 7);
    assert_eq!(point.x, -3);
    assert_eq!(point.y, 7);
    assert_eq!(point, Point { x: -3, y: 7 });
}

#[test]
fn a_point_close_to_the_centre_is_within() {
    // distance is the square root of 8, about 2.83
    assert!(Point::new(52, 52).is_within(Point::new(50, 50), 50));
}

#[test]
fn a_point_far_from_the_centre_is_not_within() {
    // distance is about 212.1
    assert!(!Point::new(200, 200).is_within(Point::new(50, 50), 50));
}

#[test]
fn the_rim_itself_is_outside() {
    let centre = Point::new(50, 50);
    assert!(!Point::new(100, 50).is_within(centre, 50));
    assert!(!Point::new(50, 0).is_within(centre, 50));
    // 30, 40, 50 is a right triangle: the distance is exactly 50
    assert!(!Point::new(80, 90).is_within(centre, 50));
    assert!(!Point::new(20, 10).is_within(centre, 50));
}

#[test]
fn one_unit_inside_the_rim_is_within() {
    let centre = Point::new(50, 50);
    assert!(Point::new(99, 50).is_within(centre, 50));
    assert!(Point::new(50, 1).is_within(centre, 50));
    // 29 * 29 + 40 * 40 = 2441 < 2500
    assert!(Point::new(79, 90).is_within(centre, 50));
    // 35 * 35 + 35 * 35 = 2450 < 2500, 36 * 36 + 35 * 35 = 2521 > 2500
    assert!(Point::new(85, 85).is_within(centre, 50));
    assert!(!Point::new(86, 85).is_within(centre, 50));
}

#[test]
fn the_test_is_symmetric_in_its_two_points() {
    let a = Point::new(-17, 230);
    let b = Point::new(12, 198);
    // 29 * 29 + 32 * 32 = 1865, between 43 * 43 = 1849 and 44 * 44 = 1936
    assert!(!a.is_within(b, 43));
    assert!(!b.is_within(a, 43));
    assert!(a.is_within(b, 44));
    assert!(b.is_within(a, 44));
}

#[test]
fn a_radius_of_zero_reaches_nothing() {
    let centre = Point::new(5, 5);
    assert!(!centre.is_within(centre, 0));
    assert!(centre.is_within(centre, 1));
    assert!(!Point::new(6, 5).is_within(centre, 1));
}

#[test]
fn the_corners_of_the_grid_do_not_overflow() {
    let low = Point::new(i32::MIN, i32::MIN);
    let high = Point::new(i32::MAX, i32::MAX);
    // the two corners are (2^32 - 1) * sqrt(2) apart, more than any radius
    assert!(!low.is_within(high, u32::MAX));
    assert!(!high.is_within(low, u32::MAX));
    // along one axis the distance is 2^32 - 1, exactly the largest radius
    assert!(!Point::new(i32::MIN, 0).is_within(Point::new(i32::MAX, 0), u32::MAX));
    assert!(Point::new(i32::MIN + 1, 0).is_within(Point::new(i32::MAX, 0), u32::MAX));
    assert!(low.is_within(low, u32::MAX));
}
