use vstd::prelude::*;

use crate::orientations::Orientation;
use crate::scales::Scale;

verus! {

/// An image size: a scale tier, an orientation and the two dimensions.
///
/// The orientation is what the constructor that made the value says it is;
/// it is not checked against the width and height.
#[derive(Debug, Clone, Copy, PartialEq, Eq, Structural)]
pub struct Size {
    pub scale: Scale,
    pub orientation: Orientation,
    pub width: i32,
    pub height: i32,
}

/// The all-defaults size, which counts as empty.
pub open spec fn empty_size() -> Size {
    Size { scale: Scale::XXSM, orientation: Orientation::Thumbnail, width: 0, height: 0 }
}

impl Size {
    /// A square thumbnail of side `sz` at the given scale.
    pub fn new_thumbnail(sz: i32, scale: Scale) -> (r: Size)
        ensures
            r == (Size { scale, orientation: Orientation::Thumbnail, width: sz, height: sz }),
    {
        Size { scale, orientation: Orientation::Thumbnail, width: sz, height: sz }
    }

    /// A landscape image of the given width, height and scale.
    pub fn new_landscape(w: i32, h: i32, scale: Scale) -> (r: Size)
        ensures
            r == (Size { scale, orientation: Orientation::Landscape, width: w, height: h }),
    {
        Size { scale, orientation: Orientation::Landscape, width: w, height: h }
    }

    /// A portrait image of the given width, height and scale.
    pub fn new_portrait(w: i32, h: i32, scale: Scale) -> (r: Size)
        ensures
            r == (Size { scale, orientation: Orientation::Portrait, width: w, height: h }),
    {
        Size { scale, orientation: Orientation::Portrait, width: w, height: h }
    }

    /// Whether the size is the all-defaults value: `XXSM`, `Thumbnail`, 0 by 0.
    pub fn is_empty(&self) -> (r: bool)
        ensures
            r == (*self == empty_size()),
    {
        *self == Size::default()
    }
}

impl Default for Size {
    fn default() -> (r: Size)
        ensures
            r == empty_size(),
    {
        Size {
            scale: Scale::default(),
            orientation: Orientation::default(),
            width: 0,
            height: 0,
        }
    }
}

} // verus!
