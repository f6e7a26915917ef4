use vstd::prelude::*;
use vstd::slice::slice_to_vec;
use vstd::string::*;

use crate::component::{Component, EventCtx, Tracer, CLOSE_MARK, COLON, OPEN_MARK, SPACE};
use crate::display::{Canvas, DrawCmd, DrawOp, GLYPH_ADVANCE, LINE_HEIGHT};
use crate::geometry::{Point, Rect};
use crate::model::Event;
use crate::theme;

verus! {

/// ASCII line feed.
pub const NEWLINE: u8 = 10;

/// ASCII `-`, appended where a word is broken.
pub const HYPHEN: u8 = 45;

/// ASCII `{`, opening a placeholder in a format.
pub const PLACEHOLDER_OPEN: u8 = 123;

/// ASCII `}`, closing a placeholder in a format.
pub const PLACEHOLDER_CLOSE: u8 = 125;

/// `lines` joined by line feeds.
pub open spec fn join_lines(lines: Seq<Seq<u8>>) -> Seq<u8>
    decreases lines.len(),
{
    if lines.len() == 0 {
        Seq::empty()
    } else if lines.len() == 1 {
        lines[0]
    } else {
        join_lines(lines.drop_last()) + seq![NEWLINE] + lines.last()
    }
}

/// Baseline of the line `i` of a text laid out in `area`.
pub open spec fn line_origin(area: Rect, i: int) -> Point {
    Point { x: area.x0, y: (area.y0 + LINE_HEIGHT * (i + 1)) as i32 }
}

/// Whether the line `i` of a text laid out in `area` lies inside the area.
pub open spec fn line_shown(area: Rect, i: int) -> bool {
    LINE_HEIGHT * (i + 1) <= area.y1 - area.y0
}

/// What painting the first `n` lines draws.
pub open spec fn lines_drawing(area: Rect, lines: Seq<Seq<u8>>, n: int) -> Seq<DrawCmd>
    decreases n,
{
    if n <= 0 {
        Seq::empty()
    } else {
        let rest = lines_drawing(area, lines, n - 1);
        if line_shown(area, n - 1) {
            rest.push(
                DrawCmd::Text {
                    origin: line_origin(area, n - 1),
                    text: lines[n - 1],
                    font: theme::FONT_NORMAL,
                    fg: theme::FG,
                    bg: theme::BG,
                },
            )
        } else {
            rest
        }
    }
}

/// Number of glyph columns of an area `width` pixels wide: a glyph is
/// placed while its left edge lies inside the area.
pub open spec fn columns_of(width: int) -> int {
    (width + GLYPH_ADVANCE - 1) / (GLYPH_ADVANCE as int)
}

/// Bytes of `lines`.
pub open spec fn line_views(lines: Seq<Vec<u8>>) -> Seq<Seq<u8>> {
    lines.map_values(|l: Vec<u8>| l@)
}

/// What a laid-out line keeps of the text: the line without the hyphen
/// that was added where a word was broken.
pub open spec fn kept(line: Seq<u8>, brk: (bool, Seq<u8>)) -> Seq<u8> {
    if brk.0 {
        line.drop_last()
    } else {
        line
    }
}

/// The text that laid-out `lines` stand for: each line without its added
/// hyphen, followed by the break bytes dropped after it.
pub open spec fn rebuild(lines: Seq<Seq<u8>>, breaks: Seq<(bool, Seq<u8>)>) -> Seq<u8>
    decreases lines.len(),
{
    if lines.len() == 0 || breaks.len() == 0 {
        Seq::empty()
    } else {
        rebuild(lines.drop_last(), breaks.drop_last()) + kept(lines.last(), breaks.last())
            + breaks.last().1
    }
}

/// Each line break adds a hyphen at the end of its line, or nothing, and
/// drops one space, one line feed, or nothing.
pub open spec fn breaks_ok(lines: Seq<Seq<u8>>, breaks: Seq<(bool, Seq<u8>)>) -> bool {
    &&& breaks.len() == lines.len()
    &&& forall|i: int|
        0 <= i < lines.len() ==> (#[trigger] breaks[i]).0 ==> lines[i].len() > 0
            && lines[i].last() == HYPHEN
    &&& forall|i: int|
        0 <= i < lines.len() ==> (#[trigger] breaks[i]).1 == Seq::<u8>::empty() || breaks[i].1
            == seq![SPACE] || breaks[i].1 == seq![NEWLINE]
}

/// Index of the first `{` at or after `i`, or the length of `fmt`.
pub open spec fn next_open(fmt: Seq<u8>, i: int) -> int
    decreases fmt.len() - i,
{
    if i < 0 || i >= fmt.len() || fmt[i] == PLACEHOLDER_OPEN {
        i
    } else {
        next_open(fmt, i + 1)
    }
}

/// Index of the first `}` at or after `i`, or the length of `fmt`.
pub open spec fn next_close(fmt: Seq<u8>, i: int) -> int
    decreases fmt.len() - i,
{
    if i < 0 || i >= fmt.len() || fmt[i] == PLACEHOLDER_CLOSE {
        i
    } else {
        next_close(fmt, i + 1)
    }
}

/// Value of the first of `args`, from index `i` on, named `key`; empty if
/// none is.
pub open spec fn value_of(args: Seq<(Seq<u8>, Seq<u8>)>, key: Seq<u8>, i: int) -> Seq<u8>
    decreases args.len() - i,
{
    if i < 0 || i >= args.len() {
        Seq::empty()
    } else if args[i].0 == key {
        args[i].1
    } else {
        value_of(args, key, i + 1)
    }
}

/// The text of `fmt` from index `i` on, each placeholder `{key}` replaced
/// by the value of `key`; an unclosed `{` stands for itself.
pub open spec fn formatted_from(fmt: Seq<u8>, args: Seq<(Seq<u8>, Seq<u8>)>, i: int) -> Seq<u8>
    decreases fmt.len() - i,
{
    if i < 0 || i >= fmt.len() {
        Seq::empty()
    } else if fmt[i] != PLACEHOLDER_OPEN {
        let end = next_open(fmt, i);
        if end <= i || end > fmt.len() {
            Seq::empty()
        } else {
            fmt.subrange(i, end) + formatted_from(fmt, args, end)
        }
    } else {
        let close = next_close(fmt, i + 1);
        if close >= fmt.len() || close <= i {
            fmt.subrange(i, fmt.len() as int)
        } else {
            value_of(args, fmt.subrange(i + 1, close), 0) + formatted_from(fmt, args, close + 1)
        }
    }
}

/// Keys and values of `args`.
pub open spec fn arg_views(args: Seq<(Vec<u8>, Vec<u8>)>) -> Seq<(Seq<u8>, Seq<u8>)> {
    args.map_values(|a: (Vec<u8>, Vec<u8>)| (a.0@, a.1@))
}

/// A paragraph of text, formatted from a template with `{name}`
/// placeholders and reflowed into lines that fit its area.
pub struct Text {
    pub area: Rect,
    pub format: Vec<u8>,
    pub args: Vec<(Vec<u8>, Vec<u8>)>,
    pub lines: Vec<Vec<u8>>,
    /// For each line: whether a hyphen was added to it, and what was
    /// dropped after it.
    pub breaks: Ghost<Seq<(bool, Seq<u8>)>>,
}

/// The byte strings `a` and `b` are equal.
fn bytes_eq(a: &[u8], b: &[u8]) -> (r: bool)
    ensures
        r == (a@ == b@),
{
    if a.len() != b.len() {
        return false;
    }
    let mut i: usize = 0;
    while i < a.len()
        invariant
            a@.len() == b@.len(),
            i <= a@.len(),
            forall|j: int| 0 <= j < i ==> a@[j] == b@[j],
        decreases a@.len() - i,
    {
        if a[i] != b[i] {
            return false;
        }
        i = i + 1;
    }
    assert(a@ =~= b@);
    true
}

/// Appends `src[from..to]` to `dst`.
fn append_range(dst: &mut Vec<u8>, src: &[u8], from: usize, to: usize)
    requires
        from <= to <= src@.len(),
    ensures
        final(dst)@ == old(dst)@ + src@.subrange(from as int, to as int),
{
    let mut i: usize = from;
    while i < to
        invariant
            from <= i <= to <= src@.len(),
            dst@ == old(dst)@ + src@.subrange(from as int, i as int),
        decreases to - i,
    {
        dst.push(src[i]);
        i = i + 1;
        assert(src@.subrange(from as int, i as int) =~= src@.subrange(from as int, i - 1) + seq![
            src@[i - 1],
        ]);
    }
}

/// Where the line that starts at `chunk[pos..]` with `room` free columns
/// ends: `None` if the rest of the chunk fits, else the end of the part kept
/// on the line, whether a hyphen follows it, and how many bytes the break
/// swallows. The line is broken at the last space or line feed that fits;
/// a word is broken (with a hyphen) only where no space precedes it.
fn fit_line(chunk: &[u8], pos: usize, room: usize) -> (r: Option<(usize, bool, usize)>)
    requires
        pos <= chunk@.len(),
    ensures
        r matches Some((end, hyphen, skip)) ==> pos <= end && end + skip <= chunk@.len() && skip
            <= 1 && end - pos + (if hyphen {
            1int
        } else {
            0int
        }) <= room,
        r is None ==> chunk@.len() - pos <= room,
        r matches Some((end, _, skip)) ==> skip == 1 ==> (chunk@[end as int] == SPACE
            || chunk@[end as int] == NEWLINE),
{
    let mut brk: (usize, bool, usize) = (pos, false, 0);
    let mut found_whitespace = false;
    let mut width: usize = 0;
    let mut i: usize = pos;
    while i < chunk.len()
        invariant
            pos <= i <= chunk@.len(),
            width == i - pos,
            pos <= brk.0 <= i,
            brk.2 <= 1,
            brk.0 + brk.2 <= i,
            brk.2 == 1 ==> (chunk@[brk.0 as int] == SPACE || chunk@[brk.0 as int] == NEWLINE),
            width <= room,
            brk.0 - pos + (if brk.1 {
                1int
            } else {
                0int
            }) <= room,
        decreases chunk@.len() - i,
    {
        let ch = chunk[i];
        if ch == SPACE || ch == NEWLINE {
            brk = (i, false, 1);
            if ch == NEWLINE {
                return Some(brk);
            }
            found_whitespace = true;
        } else if !found_whitespace && room >= 2 && width <= room - 2 {
            brk = (i + 1, true, 0);
        }
        if width >= room {
            return Some(brk);
        }
        width = width + 1;
        i = i + 1;
    }
    None
}

/// Every line holds at most `columns` bytes.
pub open spec fn lines_fit(lines: Seq<Vec<u8>>, columns: int) -> bool {
    forall|j: int| 0 <= j < lines.len() ==> #[trigger] lines[j]@.len() <= columns
}

/// Flows `chunk` into `lines`, `cur` holding the line being filled;
/// `breaks` records each line's break.
fn flow_chunk(
    chunk: &[u8],
    columns: usize,
    lines: &mut Vec<Vec<u8>>,
    cur: &mut Vec<u8>,
    breaks: Ghost<Seq<(bool, Seq<u8>)>>,
) -> (r: Ghost<Seq<(bool, Seq<u8>)>>)
    requires
        columns >= 1,
        old(cur)@.len() <= columns,
        lines_fit(old(lines)@, columns as int),
        breaks_ok(line_views(old(lines)@), breaks@),
    ensures
        final(cur)@.len() <= columns,
        lines_fit(final(lines)@, columns as int),
        breaks_ok(line_views(final(lines)@), r@),
        rebuild(line_views(final(lines)@), r@) + final(cur)@ == rebuild(
            line_views(old(lines)@),
            breaks@,
        ) + old(cur)@ + chunk@,
{
    let ghost base = rebuild(line_views(old(lines)@), breaks@) + old(cur)@;
    let ghost mut bs = breaks@;
    let mut pos: usize = 0;
    while pos < chunk.len()
        invariant
            pos <= chunk@.len(),
            columns >= 1,
            cur@.len() <= columns,
            lines_fit(lines@, columns as int),
            breaks_ok(line_views(lines@), bs),
            rebuild(line_views(lines@), bs) + cur@ == base + chunk@.subrange(0, pos as int),
        decreases (chunk@.len() - pos) * 2 + if cur@.len() > 0 {
            1int
        } else {
            0int
        },
    {
        let room: usize = if cur.len() < columns {
            columns - cur.len()
        } else {
            0
        };
        let ghost before = rebuild(line_views(lines@), bs);
        let ghost cur0 = cur@;
        match fit_line(chunk, pos, room) {
            None => {
                append_range(cur, chunk, pos, chunk.len());
                assert(chunk@.subrange(0, chunk@.len() as int) =~= chunk@.subrange(0, pos as int)
                    + chunk@.subrange(pos as int, chunk@.len() as int));
                assert(before + cur@ =~= (before + cur0) + chunk@.subrange(
                    pos as int,
                    chunk@.len() as int,
                ));
                assert((base + chunk@.subrange(0, pos as int)) + chunk@.subrange(
                    pos as int,
                    chunk@.len() as int,
                ) =~= base + chunk@.subrange(0, chunk@.len() as int));
                pos = chunk.len();
            },
            Some((end, hyphen, skip)) => {
                if end + skip == pos && cur.len() == 0 {
                    // Not even one glyph fits an empty line: keep one anyway.
                    append_range(cur, chunk, pos, pos + 1);
                    assert(chunk@.subrange(0, pos + 1) =~= chunk@.subrange(0, pos as int)
                        + chunk@.subrange(pos as int, pos + 1));
                    assert(before + cur@ =~= (before + cur0) + chunk@.subrange(pos as int, pos + 1));
                    assert((base + chunk@.subrange(0, pos as int)) + chunk@.subrange(
                        pos as int,
                        pos + 1,
                    ) =~= base + chunk@.subrange(0, pos + 1));
                    pos = pos + 1;
                } else {
                    append_range(cur, chunk, pos, end);
                    if hyphen {
                        cur.push(HYPHEN);
                    }
                    let ghost line = cur@;
                    let ghost brk = (hyphen, chunk@.subrange(end as int, (end + skip) as int));
                    let mut done: Vec<u8> = Vec::new();
                    std::mem::swap(cur, &mut done);
                    let ghost old_views = line_views(lines@);
                    lines.push(done);
                    proof {
                        assert(line_views(lines@) =~= old_views.push(line));
                        let nbs = bs.push(brk);
                        assert(old_views.push(line).drop_last() =~= old_views);
                        assert(nbs.drop_last() =~= bs);
                        if hyphen {
                            assert(line.drop_last() =~= cur0 + chunk@.subrange(pos as int, end as int));
                        } else {
                            assert(line =~= cur0 + chunk@.subrange(pos as int, end as int));
                        }
                        assert(kept(line, brk) =~= cur0 + chunk@.subrange(pos as int, end as int));
                        assert(rebuild(line_views(lines@), nbs) == before + kept(line, brk) + brk.1);
                        assert(chunk@.subrange(0, (end + skip) as int) =~= chunk@.subrange(0, pos as int)
                            + chunk@.subrange(pos as int, end as int) + brk.1);
                        assert(cur@ =~= Seq::<u8>::empty());
                        assert(before + cur0 == base + chunk@.subrange(0, pos as int));
                        let x = chunk@.subrange(pos as int, end as int);
                        assert(before + (cur0 + x) + brk.1 =~= (before + cur0) + x + brk.1);
                        assert((base + chunk@.subrange(0, pos as int)) + x + brk.1 =~= base + (
                        chunk@.subrange(0, pos as int) + x + brk.1));
                        assert(rebuild(line_views(lines@), nbs) + cur@ =~= base + chunk@.subrange(
                            0,
                            (end + skip) as int,
                        ));
                        assert forall|i: int| 0 <= i < line_views(lines@).len() implies ((#[trigger] nbs[i]).0 ==> line_views(lines@)[i].len() > 0
                            && line_views(lines@)[i].last() == HYPHEN) by {
                            if i < bs.len() {
                                assert(nbs[i] == bs[i]);
                                assert(line_views(lines@)[i] == old_views[i]);
                            }
                        }
                        assert forall|i: int| 0 <= i < line_views(lines@).len() implies (
                        #[trigger] nbs[i]).1 == Seq::<u8>::empty() || nbs[i].1 == seq![SPACE]
                            || nbs[i].1 == seq![NEWLINE] by {
                            if i < bs.len() {
                                assert(nbs[i] == bs[i]);
                            } else if skip == 1 {
                                assert(brk.1 =~= seq![chunk@[end as int]]);
                            } else {
                                assert(brk.1 =~= Seq::<u8>::empty());
                            }
                        }
                        bs = nbs;
                    }
                    pos = end + skip;
                }
            },
        }
    }
    assert(chunk@.subrange(0, chunk@.len() as int) =~= chunk@);
    Ghost(bs)
}

impl Text {
    /// The lines hold the formatted text: each fits the area's glyph
    /// columns, and together they rebuild the template with its placeholders
    /// filled in, apart from the hyphens added at broken words and the spaces
    /// and line feeds dropped at line breaks. An area without columns holds
    /// no line.
    pub open spec fn laid_out(&self) -> bool {
        if self.area.width_spec() >= 1 {
            &&& lines_fit(self.lines@, columns_of(self.area.width_spec()))
            &&& breaks_ok(line_views(self.lines@), self.breaks@)
            &&& rebuild(line_views(self.lines@), self.breaks@) == formatted_from(
                self.format@,
                arg_views(self.args@),
                0,
            )
        } else {
            self.lines@.len() == 0
        }
    }

    pub fn new(area: Rect, format: &str) -> (r: Text)
        requires
            area.wf(),
        ensures
            r.area == area,
            r.format@ == format.spec_bytes(),
            r.args@.len() == 0,
            r.inv(),
            r.laid_out(),
    {
        let mut t = Text {
            area,
            format: format.as_bytes_vec(),
            args: Vec::new(),
            lines: Vec::new(),
            breaks: Ghost(Seq::empty()),
        };
        t.layout();
        t
    }

    /// Gives the placeholder `{key}` the value `value`.
    pub fn with(self, key: &[u8], value: &[u8]) -> (r: Text)
        requires
            self.inv(),
        ensures
            r.area == self.area,
            r.format == self.format,
            r.args@.len() == self.args@.len() + 1,
            r.args@.last().0@ == key@,
            r.args@.last().1@ == value@,
            forall|i: int| 0 <= i < self.args@.len() ==> r.args@[i] == self.args@[i],
            r.inv(),
            r.laid_out(),
    {
        let mut t = self;
        t.args.push((slice_to_vec(key), slice_to_vec(value)));
        t.layout();
        t
    }

    /// The value given to the placeholder `key`, the first one if several.
    fn lookup(&self, key: &[u8]) -> (r: Option<usize>)
        ensures
            r matches Some(i) ==> i < self.args@.len() && self.args@[i as int].1@ == value_of(
                arg_views(self.args@),
                key@,
                0,
            ),
            r is None ==> value_of(arg_views(self.args@), key@, 0) == Seq::<u8>::empty(),
    {
        let ghost av = arg_views(self.args@);
        let mut i: usize = 0;
        while i < self.args.len()
            invariant
                i <= self.args@.len(),
                av == arg_views(self.args@),
                value_of(av, key@, 0) == value_of(av, key@, i as int),
            decreases self.args@.len() - i,
        {
            assert(av[i as int] == (self.args@[i as int].0@, self.args@[i as int].1@));
            if bytes_eq(self.args[i].0.as_slice(), key) {
                return Some(i);
            }
            i = i + 1;
        }
        None
    }

    /// Formats the template and reflows it into lines.
    fn layout(&mut self)
        requires
            old(self).area.wf(),
        ensures
            final(self).area == old(self).area,
            final(self).format == old(self).format,
            final(self).args == old(self).args,
            final(self).inv(),
            final(self).laid_out(),
    {
        let width = self.area.width() as usize;
        let columns: usize = (width + GLYPH_ADVANCE as usize - 1) / GLYPH_ADVANCE as usize;
        let mut lines: Vec<Vec<u8>> = Vec::new();
        let mut cur: Vec<u8> = Vec::new();
        if columns == 0 {
            // Nothing fits an area without columns.
            self.lines = lines;
            self.breaks = Ghost(Seq::empty());
            return;
        }
        let ghost av = arg_views(self.args@);
        let ghost whole = formatted_from(self.format@, av, 0);
        let mut breaks: Ghost<Seq<(bool, Seq<u8>)>> = Ghost(Seq::empty());
        proof {
            assert(line_views(lines@) =~= Seq::<Seq<u8>>::empty());
        }
        let fmt = self.format.as_slice();
        let mut pos: usize = 0;
        while pos < fmt.len()
            invariant
                pos <= fmt@.len(),
                fmt@ == self.format@,
                av == arg_views(self.args@),
                whole == formatted_from(fmt@, av, 0),
                columns >= 1,
                cur@.len() <= columns,
                lines_fit(lines@, columns as int),
                breaks_ok(line_views(lines@), breaks@),
                rebuild(line_views(lines@), breaks@) + cur@ + formatted_from(fmt@, av, pos as int)
                    == whole,
            decreases fmt@.len() - pos,
        {
            let ghost acc = rebuild(line_views(lines@), breaks@) + cur@;
            let mut end: usize = pos;
            while end < fmt.len() && fmt[end] != PLACEHOLDER_OPEN
                invariant
                    pos <= end <= fmt@.len(),
                    next_open(fmt@, pos as int) == next_open(fmt@, end as int),
                decreases fmt@.len() - end,
            {
                end = end + 1;
            }
            if end > pos {
                let mut piece: Vec<u8> = Vec::new();
                append_range(&mut piece, fmt, pos, end);
                breaks = flow_chunk(piece.as_slice(), columns, &mut lines, &mut cur, breaks);
                assert(piece@ =~= fmt@.subrange(pos as int, end as int));
                assert(formatted_from(fmt@, av, pos as int) == piece@ + formatted_from(fmt@, av, end as int));
                assert(rebuild(line_views(lines@), breaks@) + cur@ + formatted_from(fmt@, av, end as int)
                    =~= acc + formatted_from(fmt@, av, pos as int));
                pos = end;
            } else {
                let mut close: usize = pos + 1;
                while close < fmt.len() && fmt[close] != PLACEHOLDER_CLOSE
                    invariant
                        pos < close <= fmt@.len(),
                        next_close(fmt@, pos + 1) == next_close(fmt@, close as int),
                    decreases fmt@.len() - close,
                {
                    close = close + 1;
                }
                if close >= fmt.len() {
                    let mut piece: Vec<u8> = Vec::new();
                    append_range(&mut piece, fmt, pos, fmt.len());
                    breaks = flow_chunk(piece.as_slice(), columns, &mut lines, &mut cur, breaks);
                    assert(piece@ =~= fmt@.subrange(pos as int, fmt@.len() as int));
                    assert(formatted_from(fmt@, av, fmt@.len() as int) == Seq::<u8>::empty());
                    assert(rebuild(line_views(lines@), breaks@) + cur@ + formatted_from(
                        fmt@,
                        av,
                        fmt@.len() as int,
                    ) =~= acc + formatted_from(fmt@, av, pos as int));
                    pos = fmt.len();
                } else {
                    let mut key: Vec<u8> = Vec::new();
                    append_range(&mut key, fmt, pos + 1, close);
                    assert(key@ =~= fmt@.subrange(pos + 1, close as int));
                    match self.lookup(key.as_slice()) {
                        Some(i) => {
                            breaks = flow_chunk(
                                self.args[i].1.as_slice(),
                                columns,
                                &mut lines,
                                &mut cur,
                                breaks,
                            );
                        },
                        None => {},
                    }
                    assert(rebuild(line_views(lines@), breaks@) + cur@ + formatted_from(
                        fmt@,
                        av,
                        close + 1,
                    ) =~= acc + formatted_from(fmt@, av, pos as int));
                    pos = close + 1;
                }
            }
        }
        let ghost mut bs = breaks@;
        if cur.len() > 0 {
            let ghost old_views = line_views(lines@);
            let ghost line = cur@;
            lines.push(cur);
            proof {
                let nbs = bs.push((false, Seq::<u8>::empty()));
                assert(line_views(lines@) =~= old_views.push(line));
                assert(old_views.push(line).drop_last() =~= old_views);
                assert(nbs.drop_last() =~= bs);
                assert(rebuild(line_views(lines@), nbs) =~= whole);
                assert forall|i: int| 0 <= i < line_views(lines@).len() implies ((#[trigger] nbs[i]).0 ==> line_views(lines@)[i].len() > 0
                    && line_views(lines@)[i].last() == HYPHEN) by {
                    if i < bs.len() {
                        assert(nbs[i] == bs[i]);
                        assert(line_views(lines@)[i] == old_views[i]);
                    }
                }
                assert forall|i: int| 0 <= i < line_views(lines@).len() implies (
                #[trigger] nbs[i]).1 == Seq::<u8>::empty() || nbs[i].1 == seq![SPACE]
                    || nbs[i].1 == seq![NEWLINE] by {
                    if i < bs.len() {
                        assert(nbs[i] == bs[i]);
                    }
                }
                bs = nbs;
            }
        } else {
            assert(rebuild(line_views(lines@), bs) =~= whole);
        }
        assert(lines_fit(lines@, columns as int));
        assert(columns as int == columns_of(self.area.width_spec()));
        self.lines = lines;
        self.breaks = Ghost(bs);
    }
}

/// Draws the lines `from..` of `lines` that lie inside `area`.
fn paint_lines(area: Rect, lines: &Vec<Vec<u8>>, out: &mut Canvas)
    requires
        area.wf(),
    ensures
        final(out)@ == old(out)@ + lines_drawing(area, lines@.map_values(|l: Vec<u8>| l@), lines@.len() as int),
{
    let ghost views = lines@.map_values(|l: Vec<u8>| l@);
    let mut i: usize = 0;
    while i < lines.len()
        invariant
            area.wf(),
            i <= lines@.len(),
            views == lines@.map_values(|l: Vec<u8>| l@),
            out@ == old(out)@ + lines_drawing(area, views, i as int),
        decreases lines@.len() - i,
    {
        let h: i64 = area.y1 as i64 - area.y0 as i64;
        let mut y: i64 = 0;
        let mut shown = false;
        if i < 0x1000_0000 {
            y = LINE_HEIGHT as i64 * (i as i64 + 1);
            shown = y <= h;
        }
        if shown {
            out.push(
                DrawOp::Text {
                    origin: Point::new(area.x0, (area.y0 as i64 + y) as i32),
                    text: slice_to_vec(lines[i].as_slice()),
                    font: theme::FONT_NORMAL,
                    fg: theme::FG,
                    bg: theme::BG,
                },
            );
        }
        proof {
            assert(line_shown(area, i as int) <==> shown);
        }
        i = i + 1;
        assert(out@ =~= old(out)@ + lines_drawing(area, views, i as int));
    }
}

/// Writes `lines` joined by line feeds.
fn trace_lines(lines: &Vec<Vec<u8>>, t: &mut Tracer)
    ensures
        final(t)@ == old(t)@ + join_lines(lines@.map_values(|l: Vec<u8>| l@)),
{
    let ghost views = lines@.map_values(|l: Vec<u8>| l@);
    let mut i: usize = 0;
    while i < lines.len()
        invariant
            i <= lines@.len(),
            views == lines@.map_values(|l: Vec<u8>| l@),
            t@ == old(t)@ + join_lines(views.subrange(0, i as int)),
        decreases lines@.len() - i,
    {
        if i > 0 {
            t.bytes(&[NEWLINE]);
        }
        t.bytes(lines[i].as_slice());
        i = i + 1;
        assert(views.subrange(0, i as int).drop_last() =~= views.subrange(0, i - 1));
        assert(t@ =~= old(t)@ + join_lines(views.subrange(0, i as int)));
    }
    assert(views.subrange(0, lines@.len() as int) =~= views);
}

impl Component for Text {
    type Msg = ();

    open spec fn inv(&self) -> bool {
        self.area.wf()
    }

    open spec fn after_event(&self, event: Event) -> Text {
        *self
    }

    open spec fn msg_for(&self, event: Event) -> Option<()> {
        None
    }

    open spec fn requests_paint(&self, event: Event) -> bool {
        false
    }

    open spec fn drawing(&self) -> Seq<DrawCmd> {
        let views = self.lines@.map_values(|l: Vec<u8>| l@);
        lines_drawing(self.area, views, views.len() as int)
    }

    open spec fn after_paint(&self) -> Text {
        *self
    }

    open spec fn trace_spec(&self) -> Seq<u8> {
        seq![OPEN_MARK] + "Text".spec_bytes() + seq![SPACE] + "content".spec_bytes() + seq![COLON]
            + join_lines(self.lines@.map_values(|l: Vec<u8>| l@)) + seq![SPACE, CLOSE_MARK]
    }

    /// Text does not react to input.
    fn event(&mut self, ctx: &mut EventCtx, event: Event) -> (r: Option<()>) {
        None
    }

    fn paint(&mut self, out: &mut Canvas) {
        paint_lines(self.area, &self.lines, out);
    }

    fn trace(&self, t: &mut Tracer) {
        t.open("Text");
        t.field_start("content");
        trace_lines(&self.lines, t);
        t.field_end();
        t.close();
        assert(t@ =~= old(t)@ + self.trace_spec());
    }
}

} // verus!
