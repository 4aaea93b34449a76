use overlay_toolkit::geometry::Rect;

fn rect(left: usize, top: usize, width: usize, height: usize) -> Rect {
    Rect { left, top, width, height }
}

#[test]
fn right_and_bottom_are_sums() {
    let r = rect(3, 4, 10, 20);
    assert_eq!(r.right(), 13);
    assert_eq!(r.bottom(), 24);
}

#[test]
fn right_and_bottom_saturate() {
    let r = rect(usize::MAX - 2, usize::MAX, 10, 1);
    assert_eq!(r.right(), usize::MAX);
    assert_eq!(r.bottom(), usize::MAX);
}

#[test]
fn contains_is_half_open() {
    let r = rect(2, 3, 4, 5);
    assert!(r.contains(2, 3));
    assert!(r.contains(5, 7));
    assert!(!r.contains(6, 7));
    assert!(!r.contains(5, 8));
    assert!(!r.contains(1, 3));
    assert!(!r.contains(2, 2));
}

#[test]
fn empty_rect_contains_nothing() {
    let r = rect(2, 3, 0, 5);
    assert!(r.is_empty());
    assert!(!r.contains(2, 3));
    assert!(rect(2, 3, 5, 0).is_empty());
    assert!(!rect(2, 3, 1, 1).is_empty());
    assert!(Rect::default().is_empty());
}

#[test]
fn intersect_of_overlapping_squares() {
    let a = rect(0, 0, 10, 10);
    let b = rect(5, 5, 10, 10);
    assert_eq!(a.intersect(b), rect(5, 5, 5, 5));
}

#[test]
fn intersect_of_disjoint_rects_is_empty() {
    let a = rect(0, 0, 4, 4);
    let b = rect(10, 10, 4, 4);
    let r = a.intersect(b);
    assert!(r.is_empty());
    assert_eq!(r, rect(10, 10, 0, 0));
    let back = b.intersect(a);
    assert!(back.is_empty());
    assert_eq!(back, rect(4, 4, 0, 0));
}

#[test]
fn intersect_of_touching_rects_is_empty() {
    let a = rect(0, 0, 4, 4);
    let b = rect(4, 0, 4, 4);
    assert!(a.intersect(b).is_empty());
    assert_eq!(a.intersect(b), rect(4, 0, 0, 4));
}

#[test]
fn intersect_with_inner_rect_is_inner_rect() {
    let outer = rect(0, 0, 100, 100);
    let inner = rect(10, 20, 30, 40);
    assert_eq!(outer.intersect(inner), inner);
    assert_eq!(inner.intersect(outer), inner);
}

#[test]
fn intersect_at_the_saturated_edge() {
    let a = rect(usize::MAX - 1, 0, 10, 10);
    let b = rect(0, 0, usize::MAX, usize::MAX);
    assert_eq!(a.intersect(b), rect(usize::MAX - 1, 0, 1, 10));
}

#[test]
fn intersect_holds_exactly_the_common_pixels() {
    let rects = [
        rect(0, 0, 4, 4),
        rect(2, 1, 5, 2),
        rect(3, 3, 1, 6),
        rect(6, 6, 2, 2),
        rect(1, 1, 0, 3),
        rect(0, 5, 8, 1),
    ];
    for a in rects.iter() {
        for b in rects.iter() {
            let r = a.intersect(*b);
            let mut common = false;
            for x in 0..12 {
                for y in 0..12 {
                    let both = a.contains(x, y) && b.contains(x, y);
                    assert_eq!(r.contains(x, y), both);
                    common = common || both;
                }
            }
            assert_eq!(r.is_empty(), !common);
        }
    }
}
