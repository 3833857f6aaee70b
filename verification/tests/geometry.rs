//! Tests of the geometry utility types.

use wlclient::area::{Area, Margin, Origin, Size};

#[test]
fn with_size_replaces_only_the_size() {
    let a = Area {
        origin: Origin { x: 3, y: -4 },
        size: Size { width: 10, height: 20 },
    };
    let b = a.with_size(Size { width: 7, height: 8 });
    assert_eq!(b.origin, Origin { x: 3, y: -4 });
    assert_eq!(b.size, Size { width: 7, height: 8 });
    // the value it was made from is unchanged
    assert_eq!(a.size, Size { width: 10, height: 20 });
}

#[test]
fn with_origin_replaces_only_the_origin() {
    let a = Area {
        origin: Origin { x: 3, y: -4 },
        size: Size { width: 10, height: 20 },
    };
    let b = a.with_origin(Origin { x: 0, y: 0 });
    assert_eq!(b.origin, Origin { x: 0, y: 0 });
    assert_eq!(b.size, Size { width: 10, height: 20 });
}

#[test]
fn origin_and_size_convert_into_areas() {
    let from_origin: Area = Origin { x: 5, y: 6 }.into();
    assert_eq!(from_origin.origin, Origin { x: 5, y: 6 });
    assert_eq!(from_origin.size, Size { width: 0, height: 0 });

    let from_size: Area = Size { width: 9, height: 10 }.into();
    assert_eq!(from_size.origin, Origin { x: 0, y: 0 });
    assert_eq!(from_size.size, Size { width: 9, height: 10 });
}

#[test]
fn defaults_are_all_zero() {
    assert_eq!(Area::default(), Area {
        origin: Origin { x: 0, y: 0 },
        size: Size { width: 0, height: 0 },
    });
    assert_eq!(Margin::default(), Margin { top: 0, right: 0, bottom: 0, left: 0 });
}
