use vstd::prelude::*;

verus! {

/// Space reserved along the four screen edges.
#[derive(Debug, Clone, Copy, PartialEq, Eq, Structural)]
pub struct Strut {
    pub left: u16,
    pub right: u16,
    pub top: u16,
    pub bottom: u16,
}

pub open spec fn max_u16(a: u16, b: u16) -> u16 {
    if a >= b {
        a
    } else {
        b
    }
}

impl Strut {
    pub fn new(left: u16, right: u16, top: u16, bottom: u16) -> (s: Strut)
        ensures
            s == (Strut { left, right, top, bottom }),
    {
        Strut { left, right, top, bottom }
    }

    pub fn zero() -> (s: Strut)
        ensures
            s == (Strut { left: 0, right: 0, top: 0, bottom: 0 }),
    {
        Strut { left: 0, right: 0, top: 0, bottom: 0 }
    }

    pub fn is_empty(&self) -> (r: bool)
        ensures
            r == (self.left == 0 && self.right == 0 && self.top == 0 && self.bottom == 0),
    {
        self.left == 0 && self.right == 0 && self.top == 0 && self.bottom == 0
    }

    /// The edge-wise maximum of the two struts.
    pub open spec fn spec_expand(self, other: Strut) -> Strut {
        Strut {
            left: max_u16(self.left, other.left),
            right: max_u16(self.right, other.right),
            top: max_u16(self.top, other.top),
            bottom: max_u16(self.bottom, other.bottom),
        }
    }

    /// Grow every edge to at least the other strut's edge.
    pub fn expand(&mut self, other: &Strut)
        ensures
            *final(self) == old(self).spec_expand(*other),
    {
        if other.left > self.left {
            self.left = other.left;
        }
        if other.right > self.right {
            self.right = other.right;
        }
        if other.top > self.top {
            self.top = other.top;
        }
        if other.bottom > self.bottom {
            self.bottom = other.bottom;
        }
    }
}

/// Expanding is commutative, idempotent, and never shrinks an edge: the
/// combined reservation does not depend on the order in which struts are
/// merged.
pub proof fn lemma_expand_laws(a: Strut, b: Strut, c: Strut)
    ensures
        a.spec_expand(b) == b.spec_expand(a),
        a.spec_expand(a) == a,
        a.spec_expand(b).spec_expand(c) == a.spec_expand(b.spec_expand(c)),
        a.spec_expand(b).left >= a.left && a.spec_expand(b).right >= a.right
            && a.spec_expand(b).top >= a.top && a.spec_expand(b).bottom >= a.bottom,
        a.spec_expand(Strut { left: 0, right: 0, top: 0, bottom: 0 }) == a,
{
}

} // verus!
