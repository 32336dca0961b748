//! Axis-aligned rectangle algebra over two integer coordinate domains.
//!
//! A rectangle is stored as its top-left and bottom-right corners, in a
//! coordinate system where y grows downward. Containment is half-open:
//! inclusive of the top and left edges, exclusive of the bottom and right
//! edges, so adjacent rectangles tile the plane without double-counting
//! boundary points. Intersection returns a rectangle only when the common
//! area is strictly positive.

pub mod irect;
pub mod urect;
pub mod vector;

pub use irect::IRect;
pub use urect::URect;
pub use vector::IVec2;
pub use vector::UVec2;
