use vstd::prelude::*;
use vstd::string::*;

use crate::display::{Canvas, DrawCmd};
use crate::model::Event;

verus! {

/// ASCII `<`.
pub const OPEN_MARK: u8 = 60;

/// ASCII `>`.
pub const CLOSE_MARK: u8 = 62;

/// ASCII `:`.
pub const COLON: u8 = 58;

/// ASCII space.
pub const SPACE: u8 = 32;

/// Context of one event delivery: records whether a component asked to be
/// painted again.
pub struct EventCtx {
    pub paint_requested: bool,
}

impl EventCtx {
    pub fn new() -> (r: EventCtx)
        ensures
            !r.paint_requested,
    {
        EventCtx { paint_requested: false }
    }

    /// Marks the component handling the current event as changed.
    pub fn request_paint(&mut self)
        ensures
            final(self).paint_requested,
    {
        self.paint_requested = true;
    }
}

/// Writer of the debug dump of a component tree.
pub struct Tracer {
    pub bytes: Vec<u8>,
}

impl View for Tracer {
    type V = Seq<u8>;

    open spec fn view(&self) -> Seq<u8> {
        self.bytes@
    }
}

impl Tracer {
    pub fn new() -> (r: Tracer)
        ensures
            r@ == Seq::<u8>::empty(),
    {
        Tracer { bytes: Vec::new() }
    }

    /// Appends raw bytes.
    pub fn bytes(&mut self, b: &[u8])
        ensures
            final(self)@ == old(self)@ + b@,
    {
        let mut i: usize = 0;
        while i < b.len()
            invariant
                i <= b@.len(),
                self@ == old(self)@ + b@.subrange(0, i as int),
            decreases b@.len() - i,
        {
            self.bytes.push(b[i]);
            i = i + 1;
            assert(b@.subrange(0, i as int) == b@.subrange(0, i - 1) + seq![b@[i - 1]]);
        }
        assert(b@.subrange(0, b@.len() as int) == b@);
    }

    /// Appends a string.
    pub fn string(&mut self, s: &str)
        ensures
            final(self)@ == old(self)@ + s.spec_bytes(),
    {
        let v = s.as_bytes_vec();
        self.bytes(v.as_slice());
    }

    /// Opens the record of a component named `name`.
    pub fn open(&mut self, name: &str)
        ensures
            final(self)@ == old(self)@ + seq![OPEN_MARK] + name.spec_bytes() + seq![SPACE],
    {
        self.bytes.push(OPEN_MARK);
        self.string(name);
        self.bytes.push(SPACE);
    }

    /// Starts the field `name` of the open record; its value follows.
    pub fn field_start(&mut self, name: &str)
        ensures
            final(self)@ == old(self)@ + name.spec_bytes() + seq![COLON],
    {
        self.string(name);
        self.bytes.push(COLON);
    }

    /// Ends the field started last.
    pub fn field_end(&mut self)
        ensures
            final(self)@ == old(self)@ + seq![SPACE],
    {
        self.bytes.push(SPACE);
    }

    /// Closes the record opened last.
    pub fn close(&mut self)
        ensures
            final(self)@ == old(self)@ + seq![CLOSE_MARK],
    {
        self.bytes.push(CLOSE_MARK);
    }

    /// The bytes written so far.
    pub fn into_bytes(self) -> (r: Vec<u8>)
        ensures
            r@ == self@,
    {
        self.bytes
    }
}

/// A widget: it reacts to events, possibly producing a message, and draws
/// its current state.
pub trait Component: Sized {
    type Msg;

    /// Internal invariant of the widget.
    spec fn inv(&self) -> bool;

    /// The widget after handling `event`.
    spec fn after_event(&self, event: Event) -> Self;

    /// The message produced by handling `event`.
    spec fn msg_for(&self, event: Event) -> Option<Self::Msg>;

    /// Whether handling `event` asks for the widget to be painted again.
    spec fn requests_paint(&self, event: Event) -> bool;

    /// What one paint call draws.
    spec fn drawing(&self) -> Seq<DrawCmd>;

    /// The widget after a paint call.
    spec fn after_paint(&self) -> Self;

    /// What the debug dump of the widget writes.
    spec fn trace_spec(&self) -> Seq<u8>;

    fn event(&mut self, ctx: &mut EventCtx, event: Event) -> (r: Option<Self::Msg>)
        requires
            old(self).inv(),
        ensures
            final(self).inv(),
            *final(self) == old(self).after_event(event),
            r == old(self).msg_for(event),
            final(ctx).paint_requested == (old(ctx).paint_requested || old(self).requests_paint(
                event,
            )),
    ;

    fn paint(&mut self, out: &mut Canvas)
        requires
            old(self).inv(),
        ensures
            final(self).inv(),
            *final(self) == old(self).after_paint(),
            final(out)@ == old(out)@ + old(self).drawing(),
    ;

    fn trace(&self, t: &mut Tracer)
        requires
            self.inv(),
        ensures
            final(t)@ == old(t)@ + self.trace_spec(),
    ;
}

/// Owner of one component that tracks whether it has to be painted again.
pub struct Child<T> {
    pub component: T,
    pub marked_for_paint: bool,
}

impl<T: Component> Child<T> {
    /// Wraps `component`; it is painted on the first paint call.
    pub fn new(component: T) -> (r: Child<T>)
        ensures
            r.component == component,
            r.marked_for_paint,
    {
        Child { component, marked_for_paint: true }
    }

    pub fn inner(&self) -> (r: &T)
        ensures
            *r == self.component,
    {
        &self.component
    }
}

impl<T: Component> Component for Child<T> {
    type Msg = T::Msg;

    open spec fn inv(&self) -> bool {
        self.component.inv()
    }

    open spec fn after_event(&self, event: Event) -> Self {
        Child {
            component: self.component.after_event(event),
            marked_for_paint: self.marked_for_paint || self.component.requests_paint(event),
        }
    }

    open spec fn msg_for(&self, event: Event) -> Option<T::Msg> {
        self.component.msg_for(event)
    }

    open spec fn requests_paint(&self, event: Event) -> bool {
        self.component.requests_paint(event)
    }

    open spec fn drawing(&self) -> Seq<DrawCmd> {
        if self.marked_for_paint {
            self.component.drawing()
        } else {
            Seq::empty()
        }
    }

    open spec fn after_paint(&self) -> Self {
        if self.marked_for_paint {
            Child { component: self.component.after_paint(), marked_for_paint: false }
        } else {
            *self
        }
    }

    open spec fn trace_spec(&self) -> Seq<u8> {
        self.component.trace_spec()
    }

    /// Delivers `event` to the wrapped component with a fresh paint request
    /// flag; a request made there marks this child and is passed upwards.
    fn event(&mut self, ctx: &mut EventCtx, event: Event) -> (r: Option<T::Msg>) {
        let prev_requested = ctx.paint_requested;
        ctx.paint_requested = false;
        let result = self.component.event(ctx, event);
        if ctx.paint_requested {
            self.marked_for_paint = true;
        } else {
            ctx.paint_requested = prev_requested;
        }
        result
    }

    /// Paints the wrapped component only if it was marked, and clears the mark.
    fn paint(&mut self, out: &mut Canvas) {
        if self.marked_for_paint {
            self.marked_for_paint = false;
            self.component.paint(out);
        }
    }

    fn trace(&self, t: &mut Tracer) {
        self.component.trace(t);
    }
}

/// The child after handling each of `events` in turn.
pub open spec fn child_after_events<T: Component>(c: Child<T>, events: Seq<Event>) -> Child<T>
    decreases events.len(),
{
    if events.len() == 0 {
        c
    } else {
        child_after_events(c.after_event(events[0]), events.drop_first())
    }
}

/// Whether any of `events`, handled in turn by `c`, asks for a paint.
pub open spec fn paint_requested_by<T: Component>(c: T, events: Seq<Event>) -> bool
    decreases events.len(),
{
    if events.len() == 0 {
        false
    } else {
        c.requests_paint(events[0]) || paint_requested_by(c.after_event(events[0]), events.drop_first())
    }
}

/// The component after handling each of `events` in turn.
pub open spec fn after_events<T: Component>(c: T, events: Seq<Event>) -> T
    decreases events.len(),
{
    if events.len() == 0 {
        c
    } else {
        after_events(c.after_event(events[0]), events.drop_first())
    }
}

/// After any sequence of events, a child's next paint call paints the wrapped
/// component exactly when the child was already marked or one of the events
/// requested a paint, and the paint call leaves the child unmarked. In
/// particular, a child that was just painted repaints its component only if a
/// paint was requested since.
pub proof fn lemma_child_paints_iff_requested<T: Component>(c: Child<T>, events: Seq<Event>)
    ensures
        child_after_events(c, events).component == after_events(c.component, events),
        child_after_events(c, events).marked_for_paint == (c.marked_for_paint
            || paint_requested_by(c.component, events)),
        child_after_events(c, events).drawing() == (if c.marked_for_paint || paint_requested_by(
            c.component,
            events,
        ) {
            after_events(c.component, events).drawing()
        } else {
            Seq::empty()
        }),
        !child_after_events(c, events).after_paint().marked_for_paint,
        child_after_events(c, events).after_paint().component == (if c.marked_for_paint
            || paint_requested_by(c.component, events) {
            after_events(c.component, events).after_paint()
        } else {
            after_events(c.component, events)
        }),
    decreases events.len(),
{
    if events.len() > 0 {
        lemma_child_paints_iff_requested(c.after_event(events[0]), events.drop_first());
    }
}

} // verus!
