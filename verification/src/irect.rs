//! Axis-aligned rectangles with signed 32-bit coordinates.

use vstd::prelude::*;

use crate::vector::IVec2;

verus! {

/// The larger of two signed coordinates.
pub open spec fn imax(a: i32, b: i32) -> i32 {
    if a >= b {
        a
    } else {
        b
    }
}

/// The smaller of two signed coordinates.
pub open spec fn imin(a: i32, b: i32) -> i32 {
    if a <= b {
        a
    } else {
        b
    }
}

/// An axis-aligned rectangle over signed coordinates, stored as its top-left
/// and bottom-right corners, in a coordinate system where y grows downward.
///
/// By convention the top-left corner lies above and to the left of the
/// bottom-right corner (`top_left.x <= bottom_right.x` and
/// `top_left.y <= bottom_right.y`). Construction does not enforce this;
/// dimension queries on inverted corners return negative values.
#[derive(Clone, Copy, Debug, PartialEq, Eq, Structural)]
#[verifier::ext_equal]
pub struct IRect {
    pub top_left: IVec2,
    pub bottom_right: IVec2,
}

impl IRect {
    /// The corners are not inverted: width and height are non-negative.
    pub open spec fn spec_well_formed(self) -> bool {
        self.top_left.x <= self.bottom_right.x && self.top_left.y <= self.bottom_right.y
    }

    /// The top-right corner, derived from the two stored corners.
    pub open spec fn spec_top_right(self) -> IVec2 {
        IVec2 { x: self.bottom_right.x, y: self.top_left.y }
    }

    /// The bottom-left corner, derived from the two stored corners.
    pub open spec fn spec_bottom_left(self) -> IVec2 {
        IVec2 { x: self.top_left.x, y: self.bottom_right.y }
    }

    /// Zero area: collapsed in at least one dimension.
    pub open spec fn spec_zero_area(self) -> bool {
        self.top_left.x == self.bottom_right.x || self.top_left.y == self.bottom_right.y
    }

    /// Strictly positive area: strictly extended in both dimensions.
    ///
    /// Not the complement of `spec_zero_area`: a rectangle with inverted
    /// corners is neither zero-area nor positive-area.
    pub open spec fn spec_positive_area(self) -> bool {
        self.top_left.x < self.bottom_right.x && self.top_left.y < self.bottom_right.y
    }

    /// Half-open containment: inclusive of the top and left edges, exclusive
    /// of the bottom and right edges, on both axes.
    pub open spec fn spec_contains(self, point: IVec2) -> bool {
        &&& point.x >= self.top_left.x
        &&& point.y >= self.top_left.y
        &&& point.x < self.bottom_right.x
        &&& point.y < self.bottom_right.y
    }

    /// The candidate intersection: the tightest top-left corner and the
    /// tightest bottom-right corner of the two rectangles, per axis.
    pub open spec fn spec_intersection(self, other: Self) -> Self {
        IRect {
            top_left: IVec2 {
                x: imax(self.top_left.x, other.top_left.x),
                y: imax(self.top_left.y, other.top_left.y),
            },
            bottom_right: IVec2 {
                x: imin(self.bottom_right.x, other.bottom_right.x),
                y: imin(self.bottom_right.y, other.bottom_right.y),
            },
        }
    }

    /// The intersection: the candidate when its area is strictly positive,
    /// nothing otherwise. Touching rectangles intersect to nothing.
    pub open spec fn spec_intersect(self, other: Self) -> Option<Self> {
        if self.spec_intersection(other).spec_positive_area() {
            Some(self.spec_intersection(other))
        } else {
            None
        }
    }

    /// Both corners translated by `+offset`, assuming no component leaves
    /// the signed 32-bit range.
    pub open spec fn spec_with_offset(self, offset: IVec2) -> Self
        recommends
            i32::MIN <= self.top_left.x + offset.x <= i32::MAX,
            i32::MIN <= self.top_left.y + offset.y <= i32::MAX,
            i32::MIN <= self.bottom_right.x + offset.x <= i32::MAX,
            i32::MIN <= self.bottom_right.y + offset.y <= i32::MAX,
    {
        IRect {
            top_left: IVec2 {
                x: (self.top_left.x + offset.x) as i32,
                y: (self.top_left.y + offset.y) as i32,
            },
            bottom_right: IVec2 {
                x: (self.bottom_right.x + offset.x) as i32,
                y: (self.bottom_right.y + offset.y) as i32,
            },
        }
    }

    /// Both corners translated by `-offset`, assuming no component leaves
    /// the signed 32-bit range.
    pub open spec fn spec_with_negative_offset(self, offset: IVec2) -> Self
        recommends
            i32::MIN <= self.top_left.x - offset.x <= i32::MAX,
            i32::MIN <= self.top_left.y - offset.y <= i32::MAX,
            i32::MIN <= self.bottom_right.x - offset.x <= i32::MAX,
            i32::MIN <= self.bottom_right.y - offset.y <= i32::MAX,
    {
        IRect {
            top_left: IVec2 {
                x: (self.top_left.x - offset.x) as i32,
                y: (self.top_left.y - offset.y) as i32,
            },
            bottom_right: IVec2 {
                x: (self.bottom_right.x - offset.x) as i32,
                y: (self.bottom_right.y - offset.y) as i32,
            },
        }
    }

    /// Constructs a new rectangle from its two corners, stored verbatim.
    /// The top-left corner should be above and to the left of the
    /// bottom-right corner; this is not validated.
    pub fn new(top_left: IVec2, bottom_right: IVec2) -> (r: Self)
        ensures
            r.top_left == top_left,
            r.bottom_right == bottom_right,
    {
        IRect { top_left, bottom_right }
    }

    /// Constructs a new rectangle from four scalars: the top-left corner's
    /// (x, y) pair, then the bottom-right corner's. Not validated.
    pub fn from_tuples(top_left: (i32, i32), bottom_right: (i32, i32)) -> (r: Self)
        ensures
            r.top_left == (IVec2 { x: top_left.0, y: top_left.1 }),
            r.bottom_right == (IVec2 { x: bottom_right.0, y: bottom_right.1 }),
    {
        IRect {
            top_left: IVec2::new(top_left.0, top_left.1),
            bottom_right: IVec2::new(bottom_right.0, bottom_right.1),
        }
    }

    /// A rectangle with both corners at the origin: zero area at (0, 0).
    pub fn zero() -> (r: Self)
        ensures
            r.top_left.x == 0,
            r.top_left.y == 0,
            r.bottom_right.x == 0,
            r.bottom_right.y == 0,
    {
        IRect { top_left: IVec2::zero(), bottom_right: IVec2::zero() }
    }

    /// The four corners in clockwise order starting at the top-left:
    /// top-left, top-right, bottom-right, bottom-left.
    pub fn corners(self) -> (r: [IVec2; 4])
        ensures
            r@.len() == 4,
            r@[0] == self.top_left,
            r@[1] == self.spec_top_right(),
            r@[2] == self.bottom_right,
            r@[3] == self.spec_bottom_left(),
    {
        let top_right = IVec2::new(self.bottom_right.x, self.top_left.y);
        let bottom_left = IVec2::new(self.top_left.x, self.bottom_right.y);
        [self.top_left, top_right, self.bottom_right, bottom_left]
    }

    /// The top-right corner.
    pub fn top_right(&self) -> (r: IVec2)
        ensures
            r == self.spec_top_right(),
    {
        IVec2::new(self.bottom_right.x, self.top_left.y)
    }

    /// The bottom-left corner.
    pub fn bottom_left(&self) -> (r: IVec2)
        ensures
            r == self.spec_bottom_left(),
    {
        IVec2::new(self.top_left.x, self.bottom_right.y)
    }

    /// The width of the rectangle: negative when the corners are inverted
    /// in x. The true difference must fit in the signed 32-bit range.
    pub fn width(&self) -> (r: i32)
        requires
            i32::MIN <= self.bottom_right.x - self.top_left.x <= i32::MAX,
        ensures
            r == self.bottom_right.x - self.top_left.x,
    {
        self.bottom_right.x - self.top_left.x
    }

    /// The height of the rectangle: negative when the corners are inverted
    /// in y. The true difference must fit in the signed 32-bit range.
    pub fn height(&self) -> (r: i32)
        requires
            i32::MIN <= self.bottom_right.y - self.top_left.y <= i32::MAX,
        ensures
            r == self.bottom_right.y - self.top_left.y,
    {
        self.bottom_right.y - self.top_left.y
    }

    /// The width and height of the rectangle as a vector.
    pub fn size(&self) -> (r: IVec2)
        requires
            i32::MIN <= self.bottom_right.x - self.top_left.x <= i32::MAX,
            i32::MIN <= self.bottom_right.y - self.top_left.y <= i32::MAX,
        ensures
            r.x == self.bottom_right.x - self.top_left.x,
            r.y == self.bottom_right.y - self.top_left.y,
    {
        IVec2::new(self.width(), self.height())
    }

    /// True iff the point lies inside the rectangle: inclusive of the top
    /// and left edges, exclusive of the bottom and right edges.
    #[must_use]
    pub fn contains(&self, point: IVec2) -> (r: bool)
        ensures
            r == self.spec_contains(point),
    {
        point.x >= self.top_left.x
            && point.y >= self.top_left.y
            && point.x < self.bottom_right.x
            && point.y < self.bottom_right.y
    }

    /// The area common to both rectangles, or `None` when no area is common
    /// to them. Rectangles that merely touch along an edge or corner share
    /// no area, so they intersect to `None`.
    #[must_use]
    pub fn intersect(&self, other: &Self) -> (r: Option<Self>)
        ensures
            r == self.spec_intersect(*other),
    {
        let tl_x = if self.top_left.x >= other.top_left.x {
            self.top_left.x
        } else {
            other.top_left.x
        };
        let tl_y = if self.top_left.y >= other.top_left.y {
            self.top_left.y
        } else {
            other.top_left.y
        };
        let br_x = if self.bottom_right.x <= other.bottom_right.x {
            self.bottom_right.x
        } else {
            other.bottom_right.x
        };
        let br_y = if self.bottom_right.y <= other.bottom_right.y {
            self.bottom_right.y
        } else {
            other.bottom_right.y
        };
        let result = IRect {
            top_left: IVec2::new(tl_x, tl_y),
            bottom_right: IVec2::new(br_x, br_y),
        };
        if result.is_positive_area() {
            Some(result)
        } else {
            None
        }
    }

    /// True iff the rectangle has zero area: collapsed in at least one
    /// dimension. Not the complement of `is_positive_area`: a rectangle
    /// with inverted corners is neither zero-area nor positive-area.
    pub fn is_zero_area(&self) -> (r: bool)
        ensures
            r == self.spec_zero_area(),
    {
        self.top_left.x == self.bottom_right.x || self.top_left.y == self.bottom_right.y
    }

    /// True iff the rectangle has strictly positive area.
    pub fn is_positive_area(&self) -> (r: bool)
        ensures
            r == self.spec_positive_area(),
    {
        self.top_left.x < self.bottom_right.x && self.top_left.y < self.bottom_right.y
    }

    /// A new rectangle with both corners translated by `+offset`.
    /// No translated coordinate may leave the signed 32-bit range.
    pub fn with_offset(&self, offset: IVec2) -> (r: Self)
        requires
            i32::MIN <= self.top_left.x + offset.x <= i32::MAX,
            i32::MIN <= self.top_left.y + offset.y <= i32::MAX,
            i32::MIN <= self.bottom_right.x + offset.x <= i32::MAX,
            i32::MIN <= self.bottom_right.y + offset.y <= i32::MAX,
        ensures
            r == self.spec_with_offset(offset),
            r.top_left.x == self.top_left.x + offset.x,
            r.top_left.y == self.top_left.y + offset.y,
            r.bottom_right.x == self.bottom_right.x + offset.x,
            r.bottom_right.y == self.bottom_right.y + offset.y,
    {
        IRect {
            top_left: IVec2::new(self.top_left.x + offset.x, self.top_left.y + offset.y),
            bottom_right: IVec2::new(
                self.bottom_right.x + offset.x,
                self.bottom_right.y + offset.y,
            ),
        }
    }

    /// A new rectangle with both corners translated by `-offset`.
    /// No translated coordinate may leave the signed 32-bit range.
    pub fn with_negative_offset(&self, offset: IVec2) -> (r: Self)
        requires
            i32::MIN <= self.top_left.x - offset.x <= i32::MAX,
            i32::MIN <= self.top_left.y - offset.y <= i32::MAX,
            i32::MIN <= self.bottom_right.x - offset.x <= i32::MAX,
            i32::MIN <= self.bottom_right.y - offset.y <= i32::MAX,
        ensures
            r == self.spec_with_negative_offset(offset),
            r.top_left.x == self.top_left.x - offset.x,
            r.top_left.y == self.top_left.y - offset.y,
            r.bottom_right.x == self.bottom_right.x - offset.x,
            r.bottom_right.y == self.bottom_right.y - offset.y,
    {
        IRect {
            top_left: IVec2::new(self.top_left.x - offset.x, self.top_left.y - offset.y),
            bottom_right: IVec2::new(
                self.bottom_right.x - offset.x,
                self.bottom_right.y - offset.y,
            ),
        }
    }
}

/// Self-intersection identity: a positive-area rectangle intersected with
/// itself yields the rectangle itself.
pub proof fn lemma_self_intersection_identity(r: IRect)
    requires
        r.spec_positive_area(),
    ensures
        r.spec_intersect(r) == Some(r),
{
    assert(r.spec_intersection(r) =~= r);
}

/// Symmetry of intersection: the componentwise corner maxima and minima do
/// not depend on the order of the two rectangles.
pub proof fn lemma_intersection_symmetric(a: IRect, b: IRect)
    ensures
        a.spec_intersect(b) == b.spec_intersect(a),
{
    assert(a.spec_intersection(b) =~= b.spec_intersection(a));
}

/// A returned intersection is itself a well-formed rectangle with strictly
/// positive area, whatever the inputs were.
pub proof fn lemma_intersection_well_formed(a: IRect, b: IRect)
    ensures
        a.spec_intersect(b) matches Some(c) ==> c.spec_well_formed() && c.spec_positive_area(),
{
}

/// Intersection holds exactly the common points: when two rectangles
/// intersect, a point lies in the intersection iff it lies in both; when
/// they do not — touching rectangles included — no point lies in both.
pub proof fn lemma_intersection_exact(a: IRect, b: IRect, p: IVec2)
    ensures
        match a.spec_intersect(b) {
            Some(c) => c.spec_contains(p) == (a.spec_contains(p) && b.spec_contains(p)),
            None => !(a.spec_contains(p) && b.spec_contains(p)),
        },
{
}

/// Offset round-trip: translating by a vector and then translating back by
/// the same vector restores the original rectangle, whenever the forward
/// translation keeps every coordinate in the signed 32-bit range.
pub proof fn lemma_offset_round_trip(r: IRect, v: IVec2)
    requires
        i32::MIN <= r.top_left.x + v.x <= i32::MAX,
        i32::MIN <= r.top_left.y + v.y <= i32::MAX,
        i32::MIN <= r.bottom_right.x + v.x <= i32::MAX,
        i32::MIN <= r.bottom_right.y + v.y <= i32::MAX,
    ensures
        r.spec_with_offset(v).spec_with_negative_offset(v) == r,
{
    assert(r.spec_with_offset(v).spec_with_negative_offset(v) =~= r);
}

/// Area classification asymmetry: no rectangle is both zero-area and
/// positive-area, yet the two predicates are not complements — a rectangle
/// inverted on one axis and collapsed on neither satisfies neither.
pub proof fn lemma_area_classification(r: IRect)
    ensures
        !(r.spec_zero_area() && r.spec_positive_area()),
        r.top_left.x > r.bottom_right.x && r.top_left.y != r.bottom_right.y ==> {
            !r.spec_zero_area() && !r.spec_positive_area()
        },
{
}

} // verus!
