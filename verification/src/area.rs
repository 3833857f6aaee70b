//! Geometry utility types: an origin, a size, a full area and margins.

use vstd::prelude::*;

verus! {

/// Generic geometry-like struct. Contains an origin (x, y) point and bounds
/// (width, height).
#[derive(Debug, Clone, Copy, Eq, PartialEq, Structural)]
pub struct Area {
    pub origin: Origin,
    pub size: Size,
}

impl Area {
    /// The all-zero area: origin (0, 0), no extent.
    pub open spec fn default_spec() -> Area {
        Area { origin: Origin { x: 0, y: 0 }, size: Size { width: 0, height: 0 } }
    }

    /// Makes a new `Area` with width and height set to the values in the given
    /// `Size`.
    pub fn with_size(self, size: Size) -> (r: Self)
        ensures
            r.origin == self.origin,
            r.size == size,
    {
        Area { size, ..self }
    }

    /// Makes a new `Area` with x and y set to the value in the given `Origin`.
    pub fn with_origin(self, origin: Origin) -> (r: Self)
        ensures
            r.origin == origin,
            r.size == self.size,
    {
        Area { origin, ..self }
    }
}

impl Default for Area {
    fn default() -> (r: Self)
        ensures
            r.origin == (Origin { x: 0, y: 0 }),
            r.size == (Size { width: 0, height: 0 }),
    {
        Area { origin: Origin { x: 0, y: 0 }, size: Size { width: 0, height: 0 } }
    }
}

/// A point: the top-left corner of an area.
#[derive(Debug, Clone, Copy, Eq, PartialEq, Structural)]
pub struct Origin {
    pub x: i32,
    pub y: i32,
}

impl Default for Origin {
    fn default() -> (r: Self)
        ensures
            r == (Origin { x: 0, y: 0 }),
    {
        Origin { x: 0, y: 0 }
    }
}

impl From<Origin> for Area {
    fn from(origin: Origin) -> (r: Area)
        ensures
            r == (Area { origin, size: Size { width: 0, height: 0 } }),
    {
        Area { origin, size: Size { width: 0, height: 0 } }
    }
}

impl vstd::std_specs::convert::FromSpecImpl<Origin> for Area {
    open spec fn obeys_from_spec() -> bool {
        true
    }

    open spec fn from_spec(origin: Origin) -> Area {
        Area { origin, size: Size { width: 0, height: 0 } }
    }
}

/// Bounds: a width and a height in pixels. A zero width or height means
/// "no visible buffer".
#[derive(Debug, Clone, Copy, Eq, PartialEq, Structural)]
pub struct Size {
    pub width: u32,
    pub height: u32,
}

impl Default for Size {
    fn default() -> (r: Self)
        ensures
            r == (Size { width: 0, height: 0 }),
    {
        Size { width: 0, height: 0 }
    }
}

impl From<Size> for Area {
    fn from(size: Size) -> (r: Area)
        ensures
            r == (Area { origin: Origin { x: 0, y: 0 }, size }),
    {
        Area { origin: Origin { x: 0, y: 0 }, size }
    }
}

impl vstd::std_specs::convert::FromSpecImpl<Size> for Area {
    open spec fn obeys_from_spec() -> bool {
        true
    }

    open spec fn from_spec(size: Size) -> Area {
        Area { origin: Origin { x: 0, y: 0 }, size }
    }
}

/// Four signed offsets around an area. Negative values could be used for
/// slide-out animations. Margins are stored but not yet acted upon.
#[derive(Debug, Clone, Copy, Eq, PartialEq, Structural)]
pub struct Margin {
    pub top: i32,
    pub right: i32,
    pub bottom: i32,
    pub left: i32,
}

impl Default for Margin {
    fn default() -> (r: Self)
        ensures
            r == (Margin { top: 0, right: 0, bottom: 0, left: 0 }),
    {
        Margin { top: 0, right: 0, bottom: 0, left: 0 }
    }
}

} // verus!
