use ugui::geo::{remap, Point, Rect};

#[test]
fn point_arithmetic() {
    let a = Point { x: 3, y: 4 };
    let b = Point { x: 10, y: -2 };
    assert_eq!(a.add(b), Point { x: 13, y: 2 });
    assert_eq!(a.sub(b), Point { x: -7, y: 6 });
}

#[test]
fn point_containment_is_strict() {
    let r = Rect { x: 10, y: 20, w: 30, h: 40 };
    assert!(Point { x: 11, y: 21 }.inside(r));
    assert!(Point { x: 39, y: 59 }.inside(r));
    // Every boundary point is outside.
    assert!(!Point { x: 10, y: 30 }.inside(r));
    assert!(!Point { x: 40, y: 30 }.inside(r));
    assert!(!Point { x: 20, y: 20 }.inside(r));
    assert!(!Point { x: 20, y: 60 }.inside(r));
    assert!(!Point { x: 0, y: 0 }.inside(r));
}

#[test]
fn rect_accessors() {
    let r = Rect::new(10, 20, 30, 40);
    assert_eq!(r.top_left(), Point { x: 10, y: 20 });
    assert_eq!(r.top_right(), Point { x: 40, y: 20 });
    assert_eq!(r.bottom_left(), Point { x: 10, y: 60 });
    assert_eq!(r.bottom_right(), Point { x: 40, y: 60 });
    assert_eq!(r.right(), 40);
    assert_eq!(r.bottom(), 60);
}

#[test]
fn rect_inflate_grows_and_shrinks_symmetrically() {
    let r = Rect { x: 10, y: 10, w: 20, h: 20 };
    assert_eq!(r.inflate(5), Rect { x: 5, y: 5, w: 30, h: 30 });
    assert_eq!(r.inflate(-1), Rect { x: 11, y: 11, w: 18, h: 18 });
}

#[test]
fn rect_translation() {
    let r = Rect { x: 10, y: 20, w: 30, h: 40 };
    let by_rect = Rect { x: 1, y: 2, w: 999, h: 999 };
    let by_point = Point { x: 1, y: 2 };
    assert_eq!(r.add(by_rect), Rect { x: 11, y: 22, w: 30, h: 40 });
    assert_eq!(r.sub(by_rect), Rect { x: 9, y: 18, w: 30, h: 40 });
    assert_eq!(r.add_pt(by_point), Rect { x: 11, y: 22, w: 30, h: 40 });
    assert_eq!(r.sub_pt(by_point), Rect { x: 9, y: 18, w: 30, h: 40 });
}

#[test]
fn remap_is_linear_and_stays_in_range() {
    assert_eq!(remap(5, 0, 10, 0, 100), 50);
    assert_eq!(remap(0, 0, 10, 20, 40), 20);
    assert_eq!(remap(10, 0, 10, 20, 40), 40);
    // Rounds down on a fractional image.
    assert_eq!(remap(250000, 0, 1000000, 0, 350), 87);
    for v in [0, 1, 2, 5, 9, 10] {
        let m = remap(v, 0, 10, 7, 13);
        assert!((7..=13).contains(&m));
    }
}
