use rect2d::{URect, UVec2};

#[test]
fn test_urect_intersect_overlapping() {
    let r1 = URect::from_tuples((100, 100), (200, 200));
    let r3 = URect::from_tuples((125, 50), (175, 500));
    assert_eq!(
        Some(URect::from_tuples((125, 100), (175, 200))),
        r1.intersect(&r3)
    );
    assert_eq!(r1.intersect(&r3), r3.intersect(&r1));
}

#[test]
fn test_urect_intersect_disjoint_and_touching() {
    let r1 = URect::from_tuples((100, 100), (200, 200));
    let separated = URect::from_tuples((100, 300), (200, 400));
    assert_eq!(None, r1.intersect(&separated));

    let touching = URect::from_tuples((100, 200), (200, 300));
    assert_eq!(None, r1.intersect(&touching));
    assert_eq!(None, touching.intersect(&r1));
}

#[test]
fn test_urect_self_intersection() {
    let r = URect::from_tuples((1, 2), (30, 40));
    assert_eq!(Some(r.clone()), r.intersect(&r));

    let collapsed = URect::from_tuples((5, 5), (5, 10));
    assert_eq!(None, collapsed.intersect(&collapsed));
}

#[test]
fn test_urect_contains_half_open() {
    let r = URect::from_tuples((0, 0), (10, 10));
    assert!(r.contains(UVec2::new(0, 0)));
    assert!(r.contains(UVec2::new(9, 9)));
    assert!(!r.contains(UVec2::new(10, 0)));
    assert!(!r.contains(UVec2::new(0, 10)));
}

#[test]
fn test_urect_zero_area_asymmetry() {
    let collapsed_x = URect::from_tuples((5, 5), (5, 10));
    assert!(collapsed_x.is_zero_area());
    assert!(!collapsed_x.is_positive_area());

    let inverted = URect::from_tuples((10, 0), (0, 10));
    assert!(!inverted.is_zero_area());
    assert!(!inverted.is_positive_area());
}

#[test]
fn test_urect_offset_round_trip() {
    let r = URect::from_tuples((30, 40), (70, 90));
    let v = UVec2::new(17, 23);
    assert_eq!(r, r.with_offset(v).with_negative_offset(v));
    assert_eq!(URect::from_tuples((47, 63), (87, 113)), r.with_offset(v));
    assert_eq!(URect::from_tuples((13, 17), (53, 67)), r.with_negative_offset(v));
}

#[test]
fn test_urect_dimensions() {
    let r = URect::from_tuples((10, 5), (30, 25));
    assert_eq!(20, r.width());
    assert_eq!(20, r.height());
    assert_eq!(UVec2::new(20, 20), r.size());
}

#[test]
fn test_urect_corners() {
    let r = URect::new(UVec2::new(1, 2), UVec2::new(3, 4));
    assert_eq!(
        [
            UVec2::new(1, 2),
            UVec2::new(3, 2),
            UVec2::new(3, 4),
            UVec2::new(1, 4),
        ],
        r.corners()
    );
    assert_eq!(UVec2::new(3, 2), r.top_right());
    assert_eq!(UVec2::new(1, 4), r.bottom_left());
}

#[test]
fn test_urect_constructors_agree() {
    let a = URect::new(UVec2::new(1, 2), UVec2::new(3, 4));
    let b = URect::from_tuples((1, 2), (3, 4));
    assert_eq!(a, b);

    let z = URect::zero();
    assert_eq!(URect::from_tuples((0, 0), (0, 0)), z);
    assert!(z.is_zero_area());
    assert!(!z.is_positive_area());
}
