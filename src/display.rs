use vstd::prelude::*;

use crate::geometry::{Point, Rect};

verus! {

/// A display color, as a 16-bit RGB565 value.
pub type Color = u16;

/// A font, identified by the display driver's font id.
pub type Font = i32;

/// Horizontal advance of one glyph, in pixels.
pub const GLYPH_ADVANCE: i32 = 6;

/// Height of a line of text above its baseline, in pixels.
pub const TEXT_HEIGHT: i32 = 7;

/// Height of a line of text, baseline to baseline, in pixels.
pub const LINE_HEIGHT: i32 = 9;

/// One drawing primitive, executed by the display driver.
#[derive(Debug)]
pub enum DrawOp {
    /// A filled rectangle.
    Fill { area: Rect, color: Color },
    /// A filled rectangle with rounded corners over the background `bg`.
    RoundedFill { area: Rect, fg: Color, bg: Color },
    /// A run of text with its baseline starting at `origin`.
    Text { origin: Point, text: Vec<u8>, font: Font, fg: Color, bg: Color },
    /// A dotted line from `start` to the right edge of the display.
    DottedLine { start: Point, color: Color },
    /// An icon image with its top left corner at `origin`.
    Icon { origin: Point, image: Vec<u8>, fg: Color, bg: Color },
}

/// What a drawing primitive does, with its text as a sequence of bytes.
pub enum DrawCmd {
    Fill { area: Rect, color: Color },
    RoundedFill { area: Rect, fg: Color, bg: Color },
    Text { origin: Point, text: Seq<u8>, font: Font, fg: Color, bg: Color },
    DottedLine { start: Point, color: Color },
    Icon { origin: Point, image: Seq<u8>, fg: Color, bg: Color },
}

impl View for DrawOp {
    type V = DrawCmd;

    open spec fn view(&self) -> DrawCmd {
        match self {
            DrawOp::Fill { area, color } => DrawCmd::Fill { area: *area, color: *color },
            DrawOp::RoundedFill { area, fg, bg } => DrawCmd::RoundedFill {
                area: *area,
                fg: *fg,
                bg: *bg,
            },
            DrawOp::Text { origin, text, font, fg, bg } => DrawCmd::Text {
                origin: *origin,
                text: text@,
                font: *font,
                fg: *fg,
                bg: *bg,
            },
            DrawOp::DottedLine { start, color } => DrawCmd::DottedLine {
                start: *start,
                color: *color,
            },
            DrawOp::Icon { origin, image, fg, bg } => DrawCmd::Icon {
                origin: *origin,
                image: image@,
                fg: *fg,
                bg: *bg,
            },
        }
    }
}

/// The display list that paint calls append to, executed in order by the
/// display driver.
pub struct Canvas {
    pub ops: Vec<DrawOp>,
}

impl View for Canvas {
    type V = Seq<DrawCmd>;

    open spec fn view(&self) -> Seq<DrawCmd> {
        self.ops@.map_values(|o: DrawOp| o@)
    }
}

impl Canvas {
    pub fn new() -> (r: Canvas)
        ensures
            r@ == Seq::<DrawCmd>::empty(),
    {
        let r = Canvas { ops: Vec::new() };
        assert(r@ =~= Seq::<DrawCmd>::empty());
        r
    }

    pub fn push(&mut self, op: DrawOp)
        ensures
            final(self)@ == old(self)@.push(op@),
    {
        self.ops.push(op);
        assert(self@ =~= old(self)@.push(op@));
    }

    /// The primitives drawn so far.
    pub fn into_ops(self) -> (r: Vec<DrawOp>)
        ensures
            r@.map_values(|o: DrawOp| o@) == self@,
    {
        self.ops
    }
}

/// Width of `len` bytes of text, in pixels.
pub open spec fn text_width_spec(len: int) -> int {
    len * GLYPH_ADVANCE
}

/// Width of `text` in pixels.
pub fn text_width(text: &[u8]) -> (r: i128)
    ensures
        r == text_width_spec(text@.len() as int),
{
    text.len() as i128 * GLYPH_ADVANCE as i128
}

/// A position computed exactly, saturated into the display's coordinate
/// domain; whatever lies beyond it is off the display anyway.
pub open spec fn to_coord(v: int) -> i32 {
    if v < i32::MIN {
        i32::MIN
    } else if v > i32::MAX {
        i32::MAX
    } else {
        v as i32
    }
}

/// Saturates `v` into the display's coordinate domain.
pub fn coord(v: i128) -> (r: i32)
    ensures
        r == to_coord(v as int),
{
    if v < i32::MIN as i128 {
        i32::MIN
    } else if v > i32::MAX as i128 {
        i32::MAX
    } else {
        v as i32
    }
}

} // verus!
