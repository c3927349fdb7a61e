//! Points and rectangles, as the `bracket-geometry` crate holds them.

use vstd::prelude::*;
use bracket_geometry::prelude::{Point, Rect};

verus! {

/// `bracket_geometry::prelude::Point`: a pair of `i32` coordinates.
#[verifier::external_type_specification]
#[verifier::external_body]
pub struct ExPoint(bracket_geometry::prelude::Point);

/// `bracket_geometry::prelude::Rect`: two corners with `i32` coordinates.
/// The library only carries such values from its callers to the consoles.
#[verifier::external_type_specification]
#[verifier::external_body]
pub struct ExRect(bracket_geometry::prelude::Rect);

/// The point that `Point::new` makes of two `i32` coordinates.
pub uninterp spec fn point_of(x: i32, y: i32) -> Point;

/// `Point::new` on two `i32` values: converts each coordinate to `i32`,
/// which cannot fail for an `i32`, and stores the pair. The result depends
/// on the two coordinates alone, and is named by [`point_of`].
#[verifier::external_body]
pub(crate) fn new_point(x: i32, y: i32) -> (p: Point)
    ensures
        p == point_of(x, y),
{
    Point::new(x, y)
}

} // verus!
