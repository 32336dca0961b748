use rect2d::{IRect, IVec2};

#[test]
fn test_intersect_1() {
    let r1 = IRect::from_tuples((100, 100), (200, 200));
    let r2 = IRect::from_tuples((100, 300), (200, 400));
    let r3 = IRect::from_tuples((125, 50), (175, 500));

    assert_eq!(None, r1.intersect(&r2));

    assert_eq!(
        Some(IRect::from_tuples((125, 100), (175, 200))),
        r1.intersect(&r3)
    );

    assert_eq!(
        Some(IRect::from_tuples((125, 300), (175, 400))),
        r2.intersect(&r3)
    );

    assert_eq!(Some(r1.clone()), r1.intersect(&r1));
    assert_eq!(Some(r2.clone()), r2.intersect(&r2));
    assert_eq!(Some(r3.clone()), r3.intersect(&r3));
}

#[test]
fn test_intersect_2() {
    let r1 = IRect::from_tuples((100, 100), (200, 200));
    let r2 = IRect::from_tuples((100, 200), (200, 300));

    assert_eq!(None, r1.intersect(&r2));
}

#[test]
fn test_irect_intersection_symmetry() {
    let pairs = [
        (
            IRect::from_tuples((100, 100), (200, 200)),
            IRect::from_tuples((125, 50), (175, 500)),
        ),
        (
            IRect::from_tuples((100, 100), (200, 200)),
            IRect::from_tuples((100, 300), (200, 400)),
        ),
        (
            IRect::from_tuples((-50, -50), (50, 50)),
            IRect::from_tuples((0, 0), (10, 10)),
        ),
    ];
    for (a, b) in pairs {
        assert_eq!(a.intersect(&b), b.intersect(&a));
    }
}

#[test]
fn test_irect_touching_rects_share_no_point() {
    // The shared edge y = 200 belongs to the lower rectangle only, so the
    // two tiles cover each boundary point exactly once.
    let upper = IRect::from_tuples((100, 100), (200, 200));
    let lower = IRect::from_tuples((100, 200), (200, 300));
    let edge_point = IVec2::new(150, 200);
    assert!(!upper.contains(edge_point));
    assert!(lower.contains(edge_point));
    assert_eq!(None, upper.intersect(&lower));
}

#[test]
fn test_irect_contains_half_open() {
    let r = IRect::from_tuples((0, 0), (10, 10));
    assert!(r.contains(IVec2::new(0, 0)));
    assert!(r.contains(IVec2::new(9, 9)));
    assert!(!r.contains(IVec2::new(10, 0)));
    assert!(!r.contains(IVec2::new(0, 10)));
    assert!(!r.contains(IVec2::new(10, 10)));
    assert!(!r.contains(IVec2::new(-1, 5)));
}

#[test]
fn test_irect_zero_area_asymmetry() {
    let collapsed_x = IRect::from_tuples((5, 5), (5, 10));
    assert!(collapsed_x.is_zero_area());
    assert!(!collapsed_x.is_positive_area());

    let inverted = IRect::from_tuples((10, 0), (0, 10));
    assert!(!inverted.is_zero_area());
    assert!(!inverted.is_positive_area());
}

#[test]
fn test_irect_offset_round_trip() {
    let r = IRect::from_tuples((-30, 40), (70, 90));
    let v = IVec2::new(17, -23);
    assert_eq!(r, r.with_offset(v).with_negative_offset(v));

    let shifted = r.with_offset(v);
    assert_eq!(IRect::from_tuples((-13, 17), (87, 67)), shifted);
}

#[test]
fn test_irect_dimensions() {
    let r = IRect::from_tuples((-10, 5), (30, 25));
    assert_eq!(40, r.width());
    assert_eq!(20, r.height());
    assert_eq!(IVec2::new(40, 20), r.size());

    let inverted = IRect::from_tuples((10, 0), (0, 10));
    assert_eq!(-10, inverted.width());
    assert_eq!(10, inverted.height());
}

#[test]
fn test_irect_corners() {
    let r = IRect::new(IVec2::new(-1, -2), IVec2::new(3, 4));
    assert_eq!(
        [
            IVec2::new(-1, -2),
            IVec2::new(3, -2),
            IVec2::new(3, 4),
            IVec2::new(-1, 4),
        ],
        r.corners()
    );
    assert_eq!(IVec2::new(3, -2), r.top_right());
    assert_eq!(IVec2::new(-1, 4), r.bottom_left());
}

#[test]
fn test_irect_constructors_agree() {
    let a = IRect::new(IVec2::new(1, 2), IVec2::new(3, 4));
    let b = IRect::from_tuples((1, 2), (3, 4));
    assert_eq!(a, b);

    let z = IRect::zero();
    assert_eq!(IRect::from_tuples((0, 0), (0, 0)), z);
    assert!(z.is_zero_area());
}
