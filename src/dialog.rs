use vstd::prelude::*;
use vstd::slice::slice_to_vec;
use vstd::string::*;

use crate::button::{Button, ButtonMsg, BUTTON_HEIGHT};
use crate::component::{Child, Component, EventCtx, Tracer, CLOSE_MARK, COLON, OPEN_MARK, SPACE};
use crate::display::{Canvas, DrawCmd, DrawOp, LINE_HEIGHT};
use crate::geometry::{Point, Rect};
use crate::model::Event;
use crate::theme;

verus! {

/// Height of the header strip, in pixels.
pub const HEADER_HEIGHT: i32 = 13;

/// Message of a dialog.
#[derive(Copy, Clone, PartialEq, Eq, Structural, Debug)]
pub enum DialogMsg<T> {
    /// The content produced a message.
    Content(T),
    LeftClicked,
    RightClicked,
}

/// The content area, and the left and right button areas, of a dialog laid
/// out in `area`: the button strip takes the bottom rows and is halved, the
/// header (if any) takes the top rows of the rest.
pub open spec fn dialog_areas(area: Rect, has_header: bool) -> (Rect, Rect, Rect) {
    let (above, buttons) = area.hsplit_spec(-BUTTON_HEIGHT);
    let content = if has_header {
        above.hsplit_spec(HEADER_HEIGHT as int).1
    } else {
        above
    };
    let (l, r) = buttons.vsplit_spec(buttons.width_spec() / 2);
    (content, l, r)
}

/// Message of an optional child button on `event`.
pub open spec fn opt_msg(b: Option<Child<Button>>, event: Event) -> Option<ButtonMsg> {
    match b {
        Some(c) => c.msg_for(event),
        None => None,
    }
}

/// An optional child button after `event`.
pub open spec fn opt_after(b: Option<Child<Button>>, event: Event) -> Option<Child<Button>> {
    match b {
        Some(c) => Some(c.after_event(event)),
        None => None,
    }
}

/// Whether an optional child button asks for a paint on `event`.
pub open spec fn opt_requests(b: Option<Child<Button>>, event: Event) -> bool {
    match b {
        Some(c) => c.requests_paint(event),
        None => false,
    }
}

pub open spec fn opt_drawing(b: Option<Child<Button>>) -> Seq<DrawCmd> {
    match b {
        Some(c) => c.drawing(),
        None => Seq::empty(),
    }
}

pub open spec fn opt_after_paint(b: Option<Child<Button>>) -> Option<Child<Button>> {
    match b {
        Some(c) => Some(c.after_paint()),
        None => None,
    }
}

pub open spec fn opt_inv(b: Option<Child<Button>>) -> bool {
    match b {
        Some(c) => c.inv(),
        None => true,
    }
}

/// The dump of an optional child button as the field `name`.
pub open spec fn opt_trace(name: Seq<u8>, b: Option<Child<Button>>) -> Seq<u8> {
    match b {
        Some(c) => name + seq![COLON] + c.trace_spec() + seq![SPACE],
        None => Seq::empty(),
    }
}

/// What painting the header draws: its label and a rule below it.
pub open spec fn header_drawing(header: Option<Vec<u8>>) -> Seq<DrawCmd> {
    match header {
        Some(h) => seq![
            DrawCmd::Text {
                origin: Point { x: 0, y: (LINE_HEIGHT - 2) as i32 },
                text: h@,
                font: theme::FONT_BOLD,
                fg: theme::FG,
                bg: theme::BG,
            },
            DrawCmd::DottedLine { start: Point { x: 0, y: LINE_HEIGHT }, color: theme::FG },
        ],
        None => Seq::empty(),
    }
}

/// A content component with up to two buttons below it and an optional
/// header above it.
pub struct Dialog<T> {
    pub header: Option<Vec<u8>>,
    pub content: Child<T>,
    pub left_btn: Option<Child<Button>>,
    pub right_btn: Option<Child<Button>>,
}

/// Builds the child button at `area` from an optional factory.
fn make_button<F: FnOnce(Rect) -> Button>(f: Option<F>, area: Rect) -> (r: Option<Child<Button>>)
    requires
        f matches Some(g) ==> g.requires((area,)),
    ensures
        f is None ==> r is None,
        f matches Some(g) ==> r matches Some(c) && g.ensures((area,), c.component)
            && c.marked_for_paint,
{
    match f {
        Some(g) => Some(Child::new(g(area))),
        None => None,
    }
}

impl<T: Component> Dialog<T> {
    /// Lays out `area` and builds the content and the buttons, each from its
    /// factory applied to its own part of the area.
    pub fn new<F, L, R>(
        area: Rect,
        content: F,
        left: Option<L>,
        right: Option<R>,
        header: Option<Vec<u8>>,
    ) -> (r: Dialog<T>) where F: FnOnce(Rect) -> T, L: FnOnce(Rect) -> Button, R: FnOnce(Rect) -> Button
        requires
            area.wf(),
            content.requires((dialog_areas(area, header is Some).0,)),
            left matches Some(f) ==> f.requires((dialog_areas(area, header is Some).1,)),
            right matches Some(f) ==> f.requires((dialog_areas(area, header is Some).2,)),
        ensures
            r.header == header,
            content.ensures((dialog_areas(area, header is Some).0,), r.content.component),
            r.content.marked_for_paint,
            left is None ==> r.left_btn is None,
            left matches Some(f) ==> r.left_btn matches Some(c) && f.ensures(
                (dialog_areas(area, header is Some).1,),
                c.component,
            ) && c.marked_for_paint,
            right is None ==> r.right_btn is None,
            right matches Some(f) ==> r.right_btn matches Some(c) && f.ensures(
                (dialog_areas(area, header is Some).2,),
                c.component,
            ) && c.marked_for_paint,
    {
        let (above, buttons) = area.hsplit(-BUTTON_HEIGHT);
        proof {
            crate::geometry::lemma_hsplit_partition(area, -BUTTON_HEIGHT as int);
        }
        let content_area = match &header {
            None => above,
            Some(_) => above.hsplit(HEADER_HEIGHT).1,
        };
        let (left_rect, right_rect) = buttons.vsplit(buttons.width() / 2);
        let content = Child::new(content(content_area));
        let left_btn = make_button(left, left_rect);
        let right_btn = make_button(right, right_rect);
        Dialog { header, content, left_btn, right_btn }
    }

    /// Draws the header label and the rule below it, if there is a header.
    fn paint_header(&self, out: &mut Canvas)
        ensures
            final(out)@ == old(out)@ + header_drawing(self.header),
    {
        match &self.header {
            Some(h) => {
                out.push(
                    DrawOp::Text {
                        origin: Point::new(0, LINE_HEIGHT - 2),
                        text: slice_to_vec(h.as_slice()),
                        font: theme::FONT_BOLD,
                        fg: theme::FG,
                        bg: theme::BG,
                    },
                );
                out.push(DrawOp::DottedLine { start: Point::new(0, LINE_HEIGHT), color: theme::FG });
                assert(out@ =~= old(out)@ + header_drawing(self.header));
            },
            None => {
                assert(out@ =~= old(out)@ + header_drawing(self.header));
            },
        }
    }
}

/// Hands `event` to an optional child button.
fn opt_event(b: &mut Option<Child<Button>>, ctx: &mut EventCtx, event: Event) -> (r: Option<
    ButtonMsg,
>)
    requires
        opt_inv(*old(b)),
    ensures
        opt_inv(*final(b)),
        *final(b) == opt_after(*old(b), event),
        r == opt_msg(*old(b), event),
        final(ctx).paint_requested == (old(ctx).paint_requested || opt_requests(*old(b), event)),
{
    match b {
        Some(c) => c.event(ctx, event),
        None => None,
    }
}

/// Paints an optional child button.
fn opt_paint(b: &mut Option<Child<Button>>, out: &mut Canvas)
    requires
        opt_inv(*old(b)),
    ensures
        opt_inv(*final(b)),
        *final(b) == opt_after_paint(*old(b)),
        final(out)@ == old(out)@ + opt_drawing(*old(b)),
{
    match b {
        Some(c) => c.paint(out),
        None => {
            assert(out@ =~= old(out)@ + opt_drawing(*old(b)));
        },
    }
}

/// Dumps an optional child button as the field `name`.
fn opt_trace_exec(b: &Option<Child<Button>>, name: &str, t: &mut Tracer)
    requires
        opt_inv(*b),
    ensures
        final(t)@ == old(t)@ + opt_trace(name.spec_bytes(), *b),
{
    match b {
        Some(c) => {
            t.field_start(name);
            c.trace(t);
            t.field_end();
            assert(t@ =~= old(t)@ + opt_trace(name.spec_bytes(), *b));
        },
        None => {
            assert(t@ =~= old(t)@ + opt_trace(name.spec_bytes(), *b));
        },
    }
}

impl<T: Component> Component for Dialog<T> {
    type Msg = DialogMsg<T::Msg>;

    open spec fn inv(&self) -> bool {
        self.content.inv() && opt_inv(self.left_btn) && opt_inv(self.right_btn)
    }

    open spec fn after_event(&self, event: Event) -> Dialog<T> {
        let content = self.content.after_event(event);
        if self.content.msg_for(event) is Some {
            Dialog { content, ..*self }
        } else {
            let left_btn = opt_after(self.left_btn, event);
            if opt_msg(self.left_btn, event) is Some {
                Dialog { content, left_btn, ..*self }
            } else {
                Dialog { content, left_btn, right_btn: opt_after(self.right_btn, event), ..*self }
            }
        }
    }

    open spec fn msg_for(&self, event: Event) -> Option<DialogMsg<T::Msg>> {
        match self.content.msg_for(event) {
            Some(m) => Some(DialogMsg::Content(m)),
            None => if opt_msg(self.left_btn, event) is Some {
                Some(DialogMsg::LeftClicked)
            } else if opt_msg(self.right_btn, event) is Some {
                Some(DialogMsg::RightClicked)
            } else {
                None
            },
        }
    }

    open spec fn requests_paint(&self, event: Event) -> bool {
        self.content.requests_paint(event) || (self.content.msg_for(event) is None && (
        opt_requests(self.left_btn, event) || (opt_msg(self.left_btn, event) is None
            && opt_requests(self.right_btn, event))))
    }

    open spec fn drawing(&self) -> Seq<DrawCmd> {
        header_drawing(self.header) + self.content.drawing() + opt_drawing(self.left_btn)
            + opt_drawing(self.right_btn)
    }

    open spec fn after_paint(&self) -> Dialog<T> {
        Dialog {
            content: self.content.after_paint(),
            left_btn: opt_after_paint(self.left_btn),
            right_btn: opt_after_paint(self.right_btn),
            ..*self
        }
    }

    open spec fn trace_spec(&self) -> Seq<u8> {
        seq![OPEN_MARK] + "Dialog".spec_bytes() + seq![SPACE] + "content".spec_bytes() + seq![
            COLON,
        ] + self.content.trace_spec() + seq![SPACE] + opt_trace("left".spec_bytes(), self.left_btn)
            + opt_trace("right".spec_bytes(), self.right_btn) + seq![CLOSE_MARK]
    }

    /// Offers `event` to the content, then to the left button, then to the
    /// right button, and stops at the first that produces a message.
    fn event(&mut self, ctx: &mut EventCtx, event: Event) -> (r: Option<DialogMsg<T::Msg>>) {
        if let Some(msg) = self.content.event(ctx, event) {
            return Some(DialogMsg::Content(msg));
        }
        if let Some(ButtonMsg::Clicked) = opt_event(&mut self.left_btn, ctx, event) {
            return Some(DialogMsg::LeftClicked);
        }
        if let Some(ButtonMsg::Clicked) = opt_event(&mut self.right_btn, ctx, event) {
            Some(DialogMsg::RightClicked)
        } else {
            None
        }
    }

    /// Paints the header, then the content, then the buttons; each child
    /// paints only if it is marked.
    fn paint(&mut self, out: &mut Canvas) {
        self.paint_header(out);
        self.content.paint(out);
        opt_paint(&mut self.left_btn, out);
        opt_paint(&mut self.right_btn, out);
        assert(out@ =~= old(out)@ + old(self).drawing());
    }

    fn trace(&self, t: &mut Tracer) {
        t.open("Dialog");
        t.field_start("content");
        self.content.trace(t);
        t.field_end();
        opt_trace_exec(&self.left_btn, "left", t);
        opt_trace_exec(&self.right_btn, "right", t);
        t.close();
        assert(t@ =~= old(t)@ + self.trace_spec());
    }
}

/// A dialog produces at most one message per event, and tries its children in
/// priority order: a message of the content wins and leaves both buttons
/// untouched; a left click is reported only when the content produced
/// nothing, and leaves the right button untouched; a right click only when
/// neither the content nor the left button produced anything.
pub proof fn lemma_dialog_priority<T: Component>(d: Dialog<T>, event: Event)
    ensures
        d.content.msg_for(event) matches Some(m) ==> d.msg_for(event) == Some(
            DialogMsg::<T::Msg>::Content(m),
        ) && d.after_event(event).left_btn == d.left_btn && d.after_event(event).right_btn
            == d.right_btn,
        d.msg_for(event) == Some(DialogMsg::<T::Msg>::LeftClicked) <==> d.content.msg_for(
            event,
        ) is None && opt_msg(d.left_btn, event) == Some(ButtonMsg::Clicked),
        d.msg_for(event) == Some(DialogMsg::<T::Msg>::LeftClicked) ==> d.after_event(
            event,
        ).right_btn == d.right_btn,
        d.msg_for(event) == Some(DialogMsg::<T::Msg>::RightClicked) <==> d.content.msg_for(
            event,
        ) is None && opt_msg(d.left_btn, event) is None && opt_msg(d.right_btn, event) == Some(
            ButtonMsg::Clicked,
        ),
        d.msg_for(event) is None <==> d.content.msg_for(event) is None && opt_msg(
            d.left_btn,
            event,
        ) is None && opt_msg(d.right_btn, event) is None,
{
}

/// The dialog after handling each of `events` in turn.
pub open spec fn dialog_after_events<T: Component>(d: Dialog<T>, events: Seq<Event>) -> Dialog<T>
    decreases events.len(),
{
    if events.len() == 0 {
        d
    } else {
        dialog_after_events(d.after_event(events[0]), events.drop_first())
    }
}

/// The optional child button is present and marked for paint.
pub open spec fn opt_marked(b: Option<Child<Button>>) -> bool {
    b matches Some(c) && c.marked_for_paint
}

/// Whether the content asks for a paint while the dialog handles `events`.
pub open spec fn content_requested_by<T: Component>(d: Dialog<T>, events: Seq<Event>) -> bool
    decreases events.len(),
{
    if events.len() == 0 {
        false
    } else {
        d.content.requests_paint(events[0]) || content_requested_by(
            d.after_event(events[0]),
            events.drop_first(),
        )
    }
}

/// Whether the left button is handed one of `events` and asks for a paint.
pub open spec fn left_requested_by<T: Component>(d: Dialog<T>, events: Seq<Event>) -> bool
    decreases events.len(),
{
    if events.len() == 0 {
        false
    } else {
        (d.content.msg_for(events[0]) is None && opt_requests(d.left_btn, events[0]))
            || left_requested_by(d.after_event(events[0]), events.drop_first())
    }
}

/// Whether the right button is handed one of `events` and asks for a paint.
pub open spec fn right_requested_by<T: Component>(d: Dialog<T>, events: Seq<Event>) -> bool
    decreases events.len(),
{
    if events.len() == 0 {
        false
    } else {
        (d.content.msg_for(events[0]) is None && opt_msg(d.left_btn, events[0]) is None
            && opt_requests(d.right_btn, events[0])) || right_requested_by(
            d.after_event(events[0]),
            events.drop_first(),
        )
    }
}

/// Over any sequence of events, each child of a dialog ends up marked for
/// paint exactly when it was marked before or it asked for a paint on one of
/// the events it was handed; the dialog's next paint call therefore paints
/// each child's component exactly when so (the header is drawn every time),
/// and leaves every child unmarked. Children keep their presence.
pub proof fn lemma_dialog_children_paint_iff_requested<T: Component>(d: Dialog<T>, events: Seq<Event>)
    ensures
        ({
            let e = dialog_after_events(d, events);
            &&& e.header == d.header
            &&& e.left_btn is Some <==> d.left_btn is Some
            &&& e.right_btn is Some <==> d.right_btn is Some
            &&& e.content.marked_for_paint == (d.content.marked_for_paint || content_requested_by(
                d,
                events,
            ))
            &&& opt_marked(e.left_btn) == (opt_marked(d.left_btn) || left_requested_by(d, events))
            &&& opt_marked(e.right_btn) == (opt_marked(d.right_btn) || right_requested_by(
                d,
                events,
            ))
            &&& e.drawing() == header_drawing(d.header) + (if e.content.marked_for_paint {
                e.content.component.drawing()
            } else {
                Seq::empty()
            }) + (if opt_marked(e.left_btn) {
                e.left_btn.unwrap().component.drawing()
            } else {
                Seq::empty()
            }) + (if opt_marked(e.right_btn) {
                e.right_btn.unwrap().component.drawing()
            } else {
                Seq::empty()
            })
            &&& !e.after_paint().content.marked_for_paint
            &&& !opt_marked(e.after_paint().left_btn)
            &&& !opt_marked(e.after_paint().right_btn)
        }),
    decreases events.len(),
{
    if events.len() > 0 {
        lemma_dialog_children_paint_iff_requested(d.after_event(events[0]), events.drop_first());
    }
}

} // verus!
