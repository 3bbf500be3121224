use vstd::prelude::*;

pub mod orientations;
pub mod scales;
pub mod sizes;
pub mod text;

pub use orientations::Orientation;
pub use scales::Scale;
pub use sizes::Size;
pub use text::{strip_marker, UnknownVariant};

verus! {

/// A square thumbnail of side `sz` at the given scale.
pub fn new_thumbnail(sz: i32, scale: Scale) -> (r: Size)
    ensures
        r == (Size { scale, orientation: Orientation::Thumbnail, width: sz, height: sz }),
{
    Size::new_thumbnail(sz, scale)
}

/// A landscape image of the given width, height and scale.
pub fn new_landscape(w: i32, h: i32, scale: Scale) -> (r: Size)
    ensures
        r == (Size { scale, orientation: Orientation::Landscape, width: w, height: h }),
{
    Size::new_landscape(w, h, scale)
}

/// A portrait image of the given width, height and scale.
pub fn new_portrait(w: i32, h: i32, scale: Scale) -> (r: Size)
    ensures
        r == (Size { scale, orientation: Orientation::Portrait, width: w, height: h }),
{
    Size::new_portrait(w, h, scale)
}

} // verus!
