use vstd::prelude::*;

verus! {

/// An axis-aligned box in integer pixel units, inclusive on all four edges.
#[derive(Debug, PartialEq, Eq, Structural, Clone, Copy)]
pub struct Rect {
    pub left: usize,
    pub top: usize,
    pub right: usize,
    pub bottom: usize,
}

impl Rect {
    /// A well-formed box has `left <= right` and `top <= bottom`.
    pub open spec fn wf(self) -> bool {
        self.left <= self.right && self.top <= self.bottom
    }

    /// Two boxes intersect when their coordinate ranges overlap on both axes;
    /// boxes that only touch at an edge count as intersecting.
    pub open spec fn spec_intersecting(self, other: Rect) -> bool {
        self.left <= other.right && self.right >= other.left && self.top <= other.bottom
            && self.bottom >= other.top
    }

    pub fn tl(&self) -> (r: (usize, usize))
        ensures
            r == (self.left, self.top),
    {
        (self.left, self.top)
    }

    pub fn br(&self) -> (r: (usize, usize))
        ensures
            r == (self.right, self.bottom),
    {
        (self.right, self.bottom)
    }

    pub fn rect(&self) -> (r: ((usize, usize), (usize, usize)))
        ensures
            r == ((self.left, self.top), (self.right, self.bottom)),
    {
        (self.tl(), self.br())
    }

    pub fn new(left: usize, top: usize, right: usize, bottom: usize) -> (r: Rect)
        ensures
            r == (Rect { left, top, right, bottom }),
    {
        Rect { left, top, right, bottom }
    }

    pub fn width(&self) -> (w: usize)
        requires
            self.left <= self.right,
        ensures
            w == self.right - self.left,
    {
        self.right - self.left
    }

    pub fn height(&self) -> (h: usize)
        requires
            self.top <= self.bottom,
        ensures
            h == self.bottom - self.top,
    {
        self.bottom - self.top
    }

    pub fn intersecting(&self, other: &Rect) -> (r: bool)
        ensures
            r == self.spec_intersecting(*other),
    {
        self.left <= other.right && self.right >= other.left && self.top <= other.bottom
            && self.bottom >= other.top
    }
}

/// Intersection is symmetric: the test gives the same answer with the
/// arguments swapped.
pub proof fn lemma_intersecting_symmetric(a: Rect, b: Rect)
    ensures
        a.spec_intersecting(b) == b.spec_intersecting(a),
{
}

/// Something with a hitbox that can be tested against a rectangle.
/// Each implementor says in `spec_collide` what its collision test means.
pub trait Collidable {
    spec fn spec_hitbox(&self) -> Rect;

    spec fn spec_collide(&self, other: Rect) -> bool;

    fn get_hitbox(&self) -> (r: &Rect)
        ensures
            *r == self.spec_hitbox(),
    ;

    fn collide(&self, other: &Rect) -> (b: bool)
        ensures
            b == self.spec_collide(*other),
    ;
}

impl Collidable for Rect {
    open spec fn spec_hitbox(&self) -> Rect {
        *self
    }

    open spec fn spec_collide(&self, other: Rect) -> bool {
        self.spec_intersecting(other)
    }

    fn get_hitbox(&self) -> (r: &Rect) {
        self
    }

    fn collide(&self, other: &Rect) -> (b: bool) {
        self.intersecting(other)
    }
}

} // verus!
