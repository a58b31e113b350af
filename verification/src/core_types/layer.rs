use vstd::prelude::*;

verus! {

/// A stacking layer, numbered from `Layer::MIN` (0) up to `Layer::MAX` (20).
#[derive(Debug, Clone, Copy, PartialEq, Eq, Hash, PartialOrd, Ord, Structural)]
pub struct Layer(u16);

pub open spec fn min_u16(a: int, b: int) -> int {
    if a <= b {
        a
    } else {
        b
    }
}

impl Layer {
    /// The `DESKTOP` layer (0).
    pub fn desktop() -> (l: Layer)
        ensures
            l.value() == 0,
    {
        Layer(0)
    }

    /// The `BOTTOM` layer (2).
    pub fn bottom() -> (l: Layer)
        ensures
            l.value() == 2,
    {
        Layer(2)
    }

    /// The `NORMAL` layer (4).
    pub fn normal() -> (l: Layer)
        ensures
            l.value() == 4,
    {
        Layer(4)
    }

    /// The `TOP` layer (6).
    pub fn top() -> (l: Layer)
        ensures
            l.value() == 6,
    {
        Layer(6)
    }

    /// The `DOCK` layer (8).
    pub fn dock() -> (l: Layer)
        ensures
            l.value() == 8,
    {
        Layer(8)
    }

    /// The `ABOVE_DOCK` layer (10).
    pub fn above_dock() -> (l: Layer)
        ensures
            l.value() == 10,
    {
        Layer(10)
    }

    /// The `MENU` layer (12).
    pub fn menu() -> (l: Layer)
        ensures
            l.value() == 12,
    {
        Layer(12)
    }

    /// The `OSD` layer (14).
    pub fn osd() -> (l: Layer)
        ensures
            l.value() == 14,
    {
        Layer(14)
    }

    /// The `TOOLTIP` layer (16).
    pub fn tooltip() -> (l: Layer)
        ensures
            l.value() == 16,
    {
        Layer(16)
    }

    /// The `FULLSCREEN` layer (18).
    pub fn fullscreen() -> (l: Layer)
        ensures
            l.value() == 18,
    {
        Layer(18)
    }

    /// The `MIN` layer (0).
    pub fn min() -> (l: Layer)
        ensures
            l.value() == 0,
    {
        Layer(0)
    }

    /// The `MAX` layer (20).
    pub fn max() -> (l: Layer)
        ensures
            l.value() == 20,
    {
        Layer(20)
    }

    /// The layer number.
    pub closed spec fn value(self) -> int {
        self.0 as int
    }

    /// Every layer lies in `0..=20`.
    #[verifier::type_invariant]
    spec fn in_range(self) -> bool {
        self.0 <= 20
    }

    /// A layer, with numbers above the maximum clamped to it.
    pub fn new(num: u16) -> (l: Layer)
        ensures
            l.value() == min_u16(num as int, 20),
    {
        if num > 20 {
            Layer(20)
        } else {
            Layer(num)
        }
    }

    pub fn num(&self) -> (n: u16)
        ensures
            n == self.value(),
            n <= 20,
    {
        proof {
            use_type_invariant(self);
        }
        self.0
    }

    /// One layer up, staying at the maximum.
    pub fn raise(&self) -> (l: Layer)
        ensures
            l.value() == min_u16(self.value() + 1, 20),
    {
        proof {
            use_type_invariant(self);
        }
        let n = self.0 + 1;
        if n > 20 {
            Layer(20)
        } else {
            Layer(n)
        }
    }

    /// One layer down, staying at the minimum.
    pub fn lower(&self) -> (l: Layer)
        ensures
            l.value() == (if self.value() == 0 {
                0
            } else {
                self.value() - 1
            }),
    {
        proof {
            use_type_invariant(self);
        }
        if self.0 == 0 {
            Layer(0)
        } else {
            Layer(self.0 - 1)
        }
    }

    pub fn is_above(&self, other: Layer) -> (r: bool)
        ensures
            r == (self.value() > other.value()),
    {
        self.0 > other.0
    }
}

/// Raising and lowering move by exactly one layer inside the range: lowering
/// a raised layer gives it back, and so does raising a lowered one.
pub proof fn lemma_raise_lower(n: int)
    requires
        0 <= n <= 20,
    ensures
        n < 20 ==> (if min_u16(n + 1, 20) == 0 {
            0
        } else {
            min_u16(n + 1, 20) - 1
        }) == n,
        n > 0 ==> min_u16(n - 1 + 1, 20) == n,
{
}

/// Something placed in a layer.
#[derive(Debug, Clone)]
pub struct LayerItem<T> {
    pub item: T,
    pub layer: Layer,
}

impl<T> LayerItem<T> {
    pub fn new(item: T, layer: Layer) -> (r: LayerItem<T>)
        ensures
            r.item == item,
            r.layer == layer,
    {
        LayerItem { item, layer }
    }
}

} // verus!
