use vstd::prelude::*;

verus! {

/// Clamps `v` into `[lo, hi]`, the lower bound taking precedence.
pub open spec fn clamp(v: int, lo: int, hi: int) -> int {
    if v > hi {
        if hi < lo { lo } else { hi }
    } else if v < lo {
        lo
    } else {
        v
    }
}

/// A position, in logical pixels.
#[derive(Clone, Copy, Debug, PartialEq, Eq, Structural)]
pub struct Point {
    pub x: i64,
    pub y: i64,
}

impl Point {
    pub fn new(x: i64, y: i64) -> (r: Point)
        ensures
            r.x == x,
            r.y == y,
    {
        Point { x, y }
    }
}

/// A width and a height, in logical pixels.
#[derive(Clone, Copy, Debug, PartialEq, Eq, Structural)]
pub struct Size {
    pub width: u32,
    pub height: u32,
}

impl Size {
    pub fn new(width: u32, height: u32) -> (r: Size)
        ensures
            r.width == width,
            r.height == height,
    {
        Size { width, height }
    }

    /// The rectangle with this size whose origin is at `(0, 0)`.
    pub fn to_rect(&self) -> (r: Rect)
        ensures
            r == Rect::from_size_spec(*self),
    {
        Rect { x0: 0, y0: 0, x1: self.width as i64, y1: self.height as i64 }
    }
}

/// An axis-aligned rectangle: the points `p` with `x0 <= p.x < x1` and
/// `y0 <= p.y < y1`.
#[derive(Clone, Copy, Debug, PartialEq, Eq, Structural)]
pub struct Rect {
    pub x0: i64,
    pub y0: i64,
    pub x1: i64,
    pub y1: i64,
}

impl Rect {
    pub open spec fn from_size_spec(size: Size) -> Rect {
        Rect { x0: 0, y0: 0, x1: size.width as i64, y1: size.height as i64 }
    }

    pub open spec fn contains_spec(self, p: Point) -> bool {
        self.x0 <= p.x && p.x < self.x1 && self.y0 <= p.y && p.y < self.y1
    }

    pub fn new(x0: i64, y0: i64, x1: i64, y1: i64) -> (r: Rect)
        ensures
            r == (Rect { x0, y0, x1, y1 }),
    {
        Rect { x0, y0, x1, y1 }
    }

    /// Whether `p` lies inside the rectangle (the far edges excluded).
    pub fn contains(&self, p: Point) -> (r: bool)
        ensures
            r == self.contains_spec(p),
    {
        self.x0 <= p.x && p.x < self.x1 && self.y0 <= p.y && p.y < self.y1
    }
}

/// The index of the first rectangle of `rects` that contains `p`.
pub open spec fn first_containing(rects: Seq<Rect>, p: Point) -> Option<int>
    decreases rects.len(),
{
    if rects.len() == 0 {
        None
    } else if rects[0].contains_spec(p) {
        Some(0)
    } else {
        match first_containing(rects.drop_first(), p) {
            Some(i) => Some(i + 1),
            None => None,
        }
    }
}

/// What `first_containing` means: the least index whose rectangle holds `p`.
pub proof fn lemma_first_containing(rects: Seq<Rect>, p: Point)
    ensures
        match first_containing(rects, p) {
            Some(i) => 0 <= i < rects.len() && rects[i].contains_spec(p) && forall|j: int|
                0 <= j < i ==> !#[trigger] rects[j].contains_spec(p),
            None => forall|j: int| 0 <= j < rects.len() ==> !#[trigger] rects[j].contains_spec(p),
        },
    decreases rects.len(),
{
    if rects.len() > 0 {
        lemma_first_containing(rects.drop_first(), p);
        assert forall|j: int| 1 <= j < rects.len() implies rects[j] == rects.drop_first()[j - 1] by {}
        if !rects[0].contains_spec(p) {
            match first_containing(rects.drop_first(), p) {
                Some(i) => {
                    assert forall|j: int| 0 <= j < i + 1 implies !#[trigger] rects[j].contains_spec(p) by {
                        if j > 0 {
                            assert(rects[j] == rects.drop_first()[j - 1]);
                        }
                    }
                },
                None => {
                    assert forall|j: int| 0 <= j < rects.len() implies !#[trigger] rects[j].contains_spec(p) by {
                        if j > 0 {
                            assert(rects[j] == rects.drop_first()[j - 1]);
                        }
                    }
                },
            }
        }
    }
}

/// A size range that a layout must satisfy: `min` up to `max` in each
/// dimension.
#[derive(Clone, Copy, Debug, PartialEq, Eq, Structural)]
pub struct BoxConstraints {
    pub min: Size,
    pub max: Size,
}

impl BoxConstraints {
    pub open spec fn wf(self) -> bool {
        self.min.width <= self.max.width && self.min.height <= self.max.height
    }

    /// Whether `size` lies within the constraints.
    pub open spec fn fits(self, size: Size) -> bool {
        &&& self.min.width <= size.width <= self.max.width
        &&& self.min.height <= size.height <= self.max.height
    }

    /// The size that `constrain` returns for a width and height.
    pub open spec fn constrain_spec(self, width: int, height: int) -> Size {
        Size {
            width: clamp(width, self.min.width as int, self.max.width as int) as u32,
            height: clamp(height, self.min.height as int, self.max.height as int) as u32,
        }
    }

    /// Constraints from `min` to `max`; a maximum below the minimum is
    /// raised to it.
    pub fn new(min: Size, max: Size) -> (r: BoxConstraints)
        ensures
            r.wf(),
            r.min == min,
            r.max.width == if max.width < min.width { min.width } else { max.width },
            r.max.height == if max.height < min.height { min.height } else { max.height },
    {
        let w = if max.width < min.width { min.width } else { max.width };
        let h = if max.height < min.height { min.height } else { max.height };
        BoxConstraints { min, max: Size { width: w, height: h } }
    }

    /// Constraints that admit exactly `size`.
    pub fn tight(size: Size) -> (r: BoxConstraints)
        ensures
            r.wf(),
            r.min == size,
            r.max == size,
    {
        BoxConstraints { min: size, max: size }
    }

    /// Constraints from zero up to `max`.
    pub fn loose(max: Size) -> (r: BoxConstraints)
        ensures
            r.wf(),
            r.min == Size::new_spec(0, 0),
            r.max == max,
    {
        BoxConstraints { min: Size { width: 0, height: 0 }, max }
    }

    fn clamp_dim(v: u64, lo: u32, hi: u32) -> (r: u32)
        ensures
            r == clamp(v as int, lo as int, hi as int),
    {
        if v > hi as u64 {
            if hi < lo { lo } else { hi }
        } else if v < lo as u64 {
            lo
        } else {
            v as u32
        }
    }

    /// The size nearest to `width` by `height` that the constraints admit.
    pub fn constrain_wide(&self, width: u64, height: u64) -> (r: Size)
        ensures
            r == self.constrain_spec(width as int, height as int),
    {
        Size {
            width: Self::clamp_dim(width, self.min.width, self.max.width),
            height: Self::clamp_dim(height, self.min.height, self.max.height),
        }
    }

    /// The size nearest to `size` that the constraints admit.
    pub fn constrain(&self, size: Size) -> (r: Size)
        ensures
            r == self.constrain_spec(size.width as int, size.height as int),
    {
        self.constrain_wide(size.width as u64, size.height as u64)
    }
}

impl Size {
    pub open spec fn new_spec(width: u32, height: u32) -> Size {
        Size { width, height }
    }
}

} // verus!
