//! Axis-aligned rectangles in pixel units.

use vstd::prelude::*;

verus! {

/// A rectangle given by its top-left corner and its extent.
///
/// The right and bottom edges are exclusive and saturate at `usize::MAX`.
#[derive(Debug, Default, Clone, Copy, PartialEq, Eq, Structural)]
pub struct Rect {
    pub left: usize,
    pub top: usize,
    pub width: usize,
    pub height: usize,
}

/// `v` moved into the span `lo..=hi`.
pub open spec fn clamp_into(v: int, lo: int, hi: int) -> int {
    if v < lo {
        lo
    } else if v > hi {
        hi
    } else {
        v
    }
}

fn clamp(v: usize, lo: usize, hi: usize) -> (r: usize)
    requires
        lo <= hi,
    ensures
        r == clamp_into(v as int, lo as int, hi as int),
{
    if v < lo {
        lo
    } else if v > hi {
        hi
    } else {
        v
    }
}

impl Rect {
    pub open spec fn spec_right(&self) -> usize {
        if self.left + self.width > usize::MAX {
            usize::MAX
        } else {
            (self.left + self.width) as usize
        }
    }

    pub open spec fn spec_bottom(&self) -> usize {
        if self.top + self.height > usize::MAX {
            usize::MAX
        } else {
            (self.top + self.height) as usize
        }
    }

    /// The pixel `(x, y)` lies in the half-open span of both axes.
    pub open spec fn spec_contains(&self, x: int, y: int) -> bool {
        &&& self.left <= x < self.spec_right()
        &&& self.top <= y < self.spec_bottom()
    }

    pub open spec fn spec_is_empty(&self) -> bool {
        self.width == 0 || self.height == 0
    }

    /// Each edge of `self` clamped into the span of `other`.
    pub open spec fn spec_intersect(&self, other: Rect) -> Rect {
        let left = clamp_into(self.left as int, other.left as int, other.spec_right() as int);
        let top = clamp_into(self.top as int, other.top as int, other.spec_bottom() as int);
        let right = clamp_into(
            self.spec_right() as int,
            other.left as int,
            other.spec_right() as int,
        );
        let bottom = clamp_into(
            self.spec_bottom() as int,
            other.top as int,
            other.spec_bottom() as int,
        );
        Rect {
            left: left as usize,
            top: top as usize,
            width: (right - left) as usize,
            height: (bottom - top) as usize,
        }
    }

    /// Some pixel lies in both rectangles.
    pub open spec fn overlaps(&self, other: Rect) -> bool {
        exists|x: int, y: int| #[trigger] self.spec_contains(x, y) && other.spec_contains(x, y)
    }

    /// Every pixel of `self` lies in `other`.
    pub open spec fn within(&self, other: Rect) -> bool {
        forall|x: int, y: int| #[trigger] self.spec_contains(x, y) ==> other.spec_contains(x, y)
    }

    /// The exclusive right edge, `left + width`, saturating.
    #[verifier::when_used_as_spec(spec_right)]
    pub fn right(&self) -> (r: usize)
        ensures
            r == self.spec_right(),
    {
        self.left.saturating_add(self.width)
    }

    /// The exclusive bottom edge, `top + height`, saturating.
    #[verifier::when_used_as_spec(spec_bottom)]
    pub fn bottom(&self) -> (r: usize)
        ensures
            r == self.spec_bottom(),
    {
        self.top.saturating_add(self.height)
    }

    /// Whether the pixel `(x, y)` lies inside.
    pub fn contains(&self, x: usize, y: usize) -> (r: bool)
        ensures
            r == self.spec_contains(x as int, y as int),
    {
        self.left <= x && x < self.right() && self.top <= y && y < self.bottom()
    }

    /// Whether the rectangle has no extent on one axis.
    #[verifier::when_used_as_spec(spec_is_empty)]
    pub fn is_empty(&self) -> (r: bool)
        ensures
            r == self.spec_is_empty(),
    {
        self.width == 0 || self.height == 0
    }

    /// The part of `self` that lies in `other`; empty where they share no pixel.
    pub fn intersect(&self, other: Rect) -> (r: Rect)
        ensures
            r == self.spec_intersect(other),
            r.spec_right() == r.left + r.width,
            r.spec_bottom() == r.top + r.height,
    {
        let left: usize = clamp(self.left, other.left, other.right());
        let top: usize = clamp(self.top, other.top, other.bottom());
        let width: usize = clamp(self.right(), other.left, other.right()) - left;
        let height: usize = clamp(self.bottom(), other.top, other.bottom()) - top;
        Rect { left, top, width, height }
    }
}

/// An empty rectangle holds no pixel.
pub proof fn lemma_empty_holds_no_pixel(r: Rect)
    requires
        r.spec_is_empty(),
    ensures
        forall|x: int, y: int| !#[trigger] r.spec_contains(x, y),
{
}

/// A pixel lies in the intersection of two rectangles exactly when it lies in
/// both of them; so the intersection is contained in each.
pub proof fn lemma_intersect_is_common_part(a: Rect, b: Rect)
    ensures
        forall|x: int, y: int|
            #[trigger] a.spec_intersect(b).spec_contains(x, y) <==> a.spec_contains(x, y)
                && b.spec_contains(x, y),
        a.spec_intersect(b).within(a),
        a.spec_intersect(b).within(b),
{
}

/// The intersection of two rectangles is empty exactly when they share no
/// pixel.
pub proof fn lemma_intersect_empty_iff_disjoint(a: Rect, b: Rect)
    ensures
        a.spec_intersect(b).spec_is_empty() <==> !a.overlaps(b),
{
    let r = a.spec_intersect(b);
    lemma_intersect_is_common_part(a, b);
    if !r.spec_is_empty() {
        assert(r.spec_contains(r.left as int, r.top as int));
        assert(a.spec_contains(r.left as int, r.top as int));
        assert(b.spec_contains(r.left as int, r.top as int));
    }
    if a.overlaps(b) {
        let (x, y) = choose|x: int, y: int| #[trigger]
            a.spec_contains(x, y) && b.spec_contains(x, y);
        assert(r.spec_contains(x, y));
    }
}

} // verus!
