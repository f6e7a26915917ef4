use vstd::prelude::*;

verus! {

/// Display width of the device, in pixels.
pub const WIDTH: i32 = 128;

/// Display height of the device, in pixels.
pub const HEIGHT: i32 = 64;

/// A position on the display.
#[derive(Copy, Clone, PartialEq, Eq, Structural, Debug)]
pub struct Point {
    pub x: i32,
    pub y: i32,
}

impl Point {
    pub fn new(x: i32, y: i32) -> (r: Point)
        ensures
            r.x == x,
            r.y == y,
    {
        Point { x, y }
    }
}

/// A displacement, used as the size of a rectangle.
#[derive(Copy, Clone, PartialEq, Eq, Structural, Debug)]
pub struct Offset {
    pub x: i32,
    pub y: i32,
}

impl Offset {
    pub fn new(x: i32, y: i32) -> (r: Offset)
        ensures
            r.x == x,
            r.y == y,
    {
        Offset { x, y }
    }
}

/// A rectangle spanning the columns `x0 .. x1` and the rows `y0 .. y1`
/// (the far edges excluded).
#[derive(Copy, Clone, PartialEq, Eq, Structural, Debug)]
pub struct Rect {
    pub x0: i32,
    pub y0: i32,
    pub x1: i32,
    pub y1: i32,
}

/// Clamps `v` into `lo ..= hi`.
pub open spec fn clamp(v: int, lo: int, hi: int) -> int {
    if v < lo {
        lo
    } else if v > hi {
        hi
    } else {
        v
    }
}

/// Where a split at the signed offset `off` cuts the span `lo .. hi`: a
/// non-negative offset is measured from `lo`, a negative one from `hi`, and
/// the cut never leaves the span.
pub open spec fn cut_at(lo: int, hi: int, off: int) -> int {
    if off >= 0 {
        clamp(lo + off, lo, hi)
    } else {
        clamp(hi + off, lo, hi)
    }
}

impl Rect {
    /// Both spans are ordered and their lengths fit an `i32`.
    pub open spec fn wf(self) -> bool {
        &&& self.x0 <= self.x1
        &&& self.y0 <= self.y1
        &&& self.x1 - self.x0 <= i32::MAX
        &&& self.y1 - self.y0 <= i32::MAX
    }

    /// The pixel `(x, y)` lies inside the rectangle.
    pub open spec fn contains(self, x: int, y: int) -> bool {
        self.x0 <= x < self.x1 && self.y0 <= y < self.y1
    }

    pub open spec fn width_spec(self) -> int {
        self.x1 - self.x0
    }

    pub open spec fn height_spec(self) -> int {
        self.y1 - self.y0
    }

    /// The part above the horizontal cut at `off`, and the part below it.
    pub open spec fn hsplit_spec(self, off: int) -> (Rect, Rect) {
        let c = cut_at(self.y0 as int, self.y1 as int, off) as i32;
        (Rect { y1: c, ..self }, Rect { y0: c, ..self })
    }

    /// The part left of the vertical cut at `off`, and the part right of it.
    pub open spec fn vsplit_spec(self, off: int) -> (Rect, Rect) {
        let c = cut_at(self.x0 as int, self.x1 as int, off) as i32;
        (Rect { x1: c, ..self }, Rect { x0: c, ..self })
    }

    pub fn new(top_left: Point, bottom_right: Point) -> (r: Rect)
        ensures
            r == (Rect { x0: top_left.x, y0: top_left.y, x1: bottom_right.x, y1: bottom_right.y }),
    {
        Rect { x0: top_left.x, y0: top_left.y, x1: bottom_right.x, y1: bottom_right.y }
    }

    pub fn from_top_left_and_size(p: Point, size: Offset) -> (r: Rect)
        requires
            i32::MIN <= p.x + size.x <= i32::MAX,
            i32::MIN <= p.y + size.y <= i32::MAX,
        ensures
            r == (Rect { x0: p.x, y0: p.y, x1: (p.x + size.x) as i32, y1: (p.y + size.y) as i32 }),
    {
        Rect { x0: p.x, y0: p.y, x1: p.x + size.x, y1: p.y + size.y }
    }

    pub fn width(&self) -> (r: i32)
        requires
            self.wf(),
        ensures
            r == self.width_spec(),
    {
        self.x1 - self.x0
    }

    pub fn height(&self) -> (r: i32)
        requires
            self.wf(),
        ensures
            r == self.height_spec(),
    {
        self.y1 - self.y0
    }

    /// Splits the rectangle by a horizontal line `off` rows below the top
    /// edge, or `-off` rows above the bottom edge when `off` is negative.
    pub fn hsplit(self, off: i32) -> (r: (Rect, Rect))
        requires
            self.wf(),
        ensures
            r == self.hsplit_spec(off as int),
    {
        let c = split_point(self.y0, self.y1, off);
        (Rect { y1: c, ..self }, Rect { y0: c, ..self })
    }

    /// Splits the rectangle by a vertical line `off` columns right of the left
    /// edge, or `-off` columns left of the right edge when `off` is negative.
    pub fn vsplit(self, off: i32) -> (r: (Rect, Rect))
        requires
            self.wf(),
        ensures
            r == self.vsplit_spec(off as int),
    {
        let c = split_point(self.x0, self.x1, off);
        (Rect { x1: c, ..self }, Rect { x0: c, ..self })
    }
}

fn split_point(lo: i32, hi: i32, off: i32) -> (c: i32)
    requires
        lo <= hi,
    ensures
        c == cut_at(lo as int, hi as int, off as int),
{
    let v: i64 = if off >= 0 {
        lo as i64 + off as i64
    } else {
        hi as i64 + off as i64
    };
    if v < lo as i64 {
        lo
    } else if v > hi as i64 {
        hi
    } else {
        v as i32
    }
}

/// The whole display.
pub fn screen() -> (r: Rect)
    ensures
        r == (Rect { x0: 0, y0: 0, x1: WIDTH, y1: HEIGHT }),
{
    Rect { x0: 0, y0: 0, x1: WIDTH, y1: HEIGHT }
}

/// A horizontal split of a well-formed rectangle, at any offset, yields two
/// well-formed rectangles that share no pixel and together cover exactly the
/// pixels of the rectangle that was split.
pub proof fn lemma_hsplit_partition(r: Rect, off: int)
    requires
        r.wf(),
    ensures
        r.hsplit_spec(off).0.wf(),
        r.hsplit_spec(off).1.wf(),
        forall|x: int, y: int|
            !(#[trigger] r.hsplit_spec(off).0.contains(x, y) && r.hsplit_spec(off).1.contains(x, y)),
        forall|x: int, y: int|
            #[trigger] r.contains(x, y) <==> (r.hsplit_spec(off).0.contains(x, y)
                || r.hsplit_spec(off).1.contains(x, y)),
{
}

/// A vertical split of a well-formed rectangle, at any offset, yields two
/// well-formed rectangles that share no pixel and together cover exactly the
/// pixels of the rectangle that was split.
pub proof fn lemma_vsplit_partition(r: Rect, off: int)
    requires
        r.wf(),
    ensures
        r.vsplit_spec(off).0.wf(),
        r.vsplit_spec(off).1.wf(),
        forall|x: int, y: int|
            !(#[trigger] r.vsplit_spec(off).0.contains(x, y) && r.vsplit_spec(off).1.contains(x, y)),
        forall|x: int, y: int|
            #[trigger] r.contains(x, y) <==> (r.vsplit_spec(off).0.contains(x, y)
                || r.vsplit_spec(off).1.contains(x, y)),
{
}

} // verus!
