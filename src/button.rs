use vstd::prelude::*;
use vstd::slice::slice_to_vec;
use vstd::string::*;

use crate::component::{Component, EventCtx, Tracer, COLON, SPACE};
use crate::display::{
    coord, text_width, text_width_spec, to_coord, Canvas, Color, DrawCmd, DrawOp, Font, TEXT_HEIGHT,
};
use crate::geometry::{Point, Rect, HEIGHT, WIDTH};
use crate::model::{Event, T1Button, T1HidEvent};
use crate::theme;

verus! {

/// Height of the button strip at the bottom of the display, in pixels.
pub const BUTTON_HEIGHT: i32 = 11;

/// Message of a button.
#[derive(Copy, Clone, PartialEq, Eq, Structural, Debug)]
pub enum ButtonMsg {
    Clicked,
}

/// Which physical button, and which side of the display, a button belongs to.
#[derive(Copy, Clone, PartialEq, Eq, Structural, Debug)]
pub enum ButtonPos {
    Left,
    Right,
}

/// The button at `pos` is the physical button `b`.
pub open spec fn hit_spec(pos: ButtonPos, b: T1Button) -> bool {
    (pos == ButtonPos::Left && b == T1Button::Left) || (pos == ButtonPos::Right && b
        == T1Button::Right)
}

impl ButtonPos {
    fn hit(&self, b: &T1Button) -> (r: bool)
        ensures
            r == hit_spec(*self, *b),
    {
        match (self, b) {
            (ButtonPos::Left, T1Button::Left) => true,
            (ButtonPos::Right, T1Button::Right) => true,
            _ => false,
        }
    }
}

/// State of a button.
#[derive(Copy, Clone, PartialEq, Eq, Structural, Debug)]
pub enum State {
    Initial,
    Pressed,
    Released,
    Disabled,
}

/// What a button shows.
#[derive(Clone, Debug)]
pub enum ButtonContent {
    Text(Vec<u8>),
    Icon(&'static [u8]),
}

/// Look of a button in one state.
#[derive(Copy, Clone, PartialEq, Eq, Structural, Debug)]
pub struct ButtonStyle {
    pub font: Font,
    pub text_color: Color,
    pub background_color: Color,
    pub border_horiz: bool,
}

/// Looks of a button: idle, pressed and disabled.
#[derive(Copy, Clone, PartialEq, Eq, Structural, Debug)]
pub struct ButtonStyleSheet {
    pub normal: ButtonStyle,
    pub active: ButtonStyle,
    pub disabled: ButtonStyle,
}

/// State of the button at `pos` in state `s` after `event`.
pub open spec fn next_state(pos: ButtonPos, s: State, event: Event) -> State {
    match event {
        Event::HumanInput(T1HidEvent::ButtonPressed(b)) => if s != State::Disabled && hit_spec(
            pos,
            b,
        ) {
            State::Pressed
        } else {
            s
        },
        Event::HumanInput(T1HidEvent::ButtonReleased(b)) => if s == State::Pressed && hit_spec(
            pos,
            b,
        ) {
            State::Initial
        } else {
            s
        },
        _ => s,
    }
}

/// Message of the button at `pos` in state `s` on `event`: a click exactly
/// when a pressed button sees its own button released.
pub open spec fn click_of(pos: ButtonPos, s: State, event: Event) -> Option<ButtonMsg> {
    match event {
        Event::HumanInput(T1HidEvent::ButtonReleased(b)) => if s == State::Pressed && hit_spec(
            pos,
            b,
        ) {
            Some(ButtonMsg::Clicked)
        } else {
            None
        },
        _ => None,
    }
}

/// Style selected by a state: idle states share the normal style.
pub open spec fn style_of(styles: ButtonStyleSheet, s: State) -> ButtonStyle {
    match s {
        State::Initial | State::Released => styles.normal,
        State::Pressed => styles.active,
        State::Disabled => styles.disabled,
    }
}

/// Column where a label of width `w` starts.
pub open spec fn label_x(pos: ButtonPos, w: int) -> int {
    match pos {
        ButtonPos::Left => 0,
        ButtonPos::Right => WIDTH - w + 1,
    }
}

/// What painting a text label draws: the label's background (framed with
/// rounded corners or plain, as the style says) and the label on it.
pub open spec fn label_drawing(pos: ButtonPos, text: Seq<u8>, style: ButtonStyle) -> Seq<DrawCmd> {
    let w = text_width_spec(text.len() as int);
    let x = label_x(pos, w);
    let y = HEIGHT - BUTTON_HEIGHT;
    let frame = if style.border_horiz {
        DrawCmd::RoundedFill {
            area: Rect {
                x0: to_coord(x - 4),
                y0: y as i32,
                x1: to_coord(x - 4 + w + 3),
                y1: (y + BUTTON_HEIGHT) as i32,
            },
            fg: style.background_color,
            bg: theme::BG,
        }
    } else {
        DrawCmd::Fill {
            area: Rect {
                x0: to_coord(x),
                y0: y as i32,
                x1: to_coord(x + w - 1),
                y1: (y + BUTTON_HEIGHT) as i32,
            },
            color: style.background_color,
        }
    };
    let h_border: int = if style.border_horiz {
        2
    } else {
        0
    };
    let baseline_x = match pos {
        ButtonPos::Left => h_border,
        ButtonPos::Right => WIDTH - h_border + 1 - w,
    };
    let origin = Point { x: to_coord(baseline_x), y: (y + TEXT_HEIGHT + 1) as i32 };
    seq![
        frame,
        DrawCmd::Text {
            origin,
            text,
            font: style.font,
            fg: style.text_color,
            bg: style.background_color,
        },
    ]
}

/// The half of the button strip that an icon button at `pos` covers.
pub open spec fn icon_area(pos: ButtonPos) -> Rect {
    let y = (HEIGHT - BUTTON_HEIGHT) as i32;
    match pos {
        ButtonPos::Left => Rect { x0: 0, y0: y, x1: (WIDTH / 2) as i32, y1: HEIGHT },
        ButtonPos::Right => Rect { x0: (WIDTH / 2) as i32, y0: y, x1: WIDTH, y1: HEIGHT },
    }
}

/// What painting an icon draws: its half of the strip in the style's
/// background, and the image on it in the style's colors.
pub open spec fn icon_drawing(pos: ButtonPos, image: Seq<u8>, style: ButtonStyle) -> Seq<DrawCmd> {
    let area = icon_area(pos);
    seq![
        DrawCmd::Fill { area, color: style.background_color },
        DrawCmd::Icon {
            origin: Point { x: area.x0, y: area.y0 },
            image,
            fg: style.text_color,
            bg: style.background_color,
        },
    ]
}

/// A button in the strip at the bottom of the display, driven by its
/// physical button.
pub struct Button {
    pub pos: ButtonPos,
    pub content: ButtonContent,
    pub styles: ButtonStyleSheet,
    pub state: State,
}

impl Button {
    /// The style of the current state.
    pub open spec fn style_spec(&self) -> ButtonStyle {
        style_of(self.styles, self.state)
    }

    pub fn new(pos: ButtonPos, content: ButtonContent, styles: ButtonStyleSheet) -> (r: Button)
        ensures
            r.pos == pos,
            r.content == content,
            r.styles == styles,
            r.state == State::Initial,
    {
        Button { pos, content, styles, state: State::Initial }
    }

    pub fn with_text(pos: ButtonPos, text: &str, styles: ButtonStyleSheet) -> (r: Button)
        ensures
            r.pos == pos,
            r.content matches ButtonContent::Text(t) && t@ == text.spec_bytes(),
            r.styles == styles,
            r.state == State::Initial,
    {
        Button::new(pos, ButtonContent::Text(text.as_bytes_vec()), styles)
    }

    pub fn with_icon(pos: ButtonPos, image: &'static [u8], styles: ButtonStyleSheet) -> (r: Button)
        ensures
            r.pos == pos,
            r.content == ButtonContent::Icon(image),
            r.styles == styles,
            r.state == State::Initial,
    {
        Button::new(pos, ButtonContent::Icon(image), styles)
    }

    /// Makes the button react to input again, back in its initial state.
    pub fn enable(&mut self, ctx: &mut EventCtx)
        ensures
            *final(self) == (Button { state: State::Initial, ..*old(self) }),
            final(ctx).paint_requested == (old(ctx).paint_requested || old(self).state
                != State::Initial),
    {
        self.set(ctx, State::Initial)
    }

    /// Makes the button ignore all input.
    pub fn disable(&mut self, ctx: &mut EventCtx)
        ensures
            *final(self) == (Button { state: State::Disabled, ..*old(self) }),
            final(ctx).paint_requested == (old(ctx).paint_requested || old(self).state
                != State::Disabled),
    {
        self.set(ctx, State::Disabled)
    }

    pub fn is_enabled(&self) -> (r: bool)
        ensures
            r == (self.state != State::Disabled),
    {
        match self.state {
            State::Initial | State::Pressed | State::Released => true,
            State::Disabled => false,
        }
    }

    pub fn is_disabled(&self) -> (r: bool)
        ensures
            r == (self.state == State::Disabled),
    {
        match self.state {
            State::Disabled => true,
            _ => false,
        }
    }

    pub fn content(&self) -> (r: &ButtonContent)
        ensures
            *r == self.content,
    {
        &self.content
    }

    pub fn state(&self) -> (r: State)
        ensures
            r == self.state,
    {
        self.state
    }

    fn style(&self) -> (r: ButtonStyle)
        ensures
            r == self.style_spec(),
    {
        match self.state {
            State::Initial | State::Released => self.styles.normal,
            State::Pressed => self.styles.active,
            State::Disabled => self.styles.disabled,
        }
    }

    /// Moves to `state`, asking for a paint only if the state changes.
    fn set(&mut self, ctx: &mut EventCtx, state: State)
        ensures
            *final(self) == (Button { state, ..*old(self) }),
            final(ctx).paint_requested == (old(ctx).paint_requested || old(self).state != state),
    {
        if self.state != state {
            self.state = state;
            ctx.request_paint();
        }
    }
}

impl Component for Button {
    type Msg = ButtonMsg;

    open spec fn inv(&self) -> bool {
        true
    }

    open spec fn after_event(&self, event: Event) -> Button {
        Button { state: next_state(self.pos, self.state, event), ..*self }
    }

    open spec fn msg_for(&self, event: Event) -> Option<ButtonMsg> {
        click_of(self.pos, self.state, event)
    }

    open spec fn requests_paint(&self, event: Event) -> bool {
        next_state(self.pos, self.state, event) != self.state
    }

    open spec fn drawing(&self) -> Seq<DrawCmd> {
        match self.content {
            ButtonContent::Text(t) => label_drawing(self.pos, t@, self.style_spec()),
            ButtonContent::Icon(image) => icon_drawing(self.pos, image@, self.style_spec()),
        }
    }

    open spec fn after_paint(&self) -> Button {
        *self
    }

    open spec fn trace_spec(&self) -> Seq<u8> {
        let body = match self.content {
            ButtonContent::Text(t) => "text".spec_bytes() + seq![COLON] + t@ + seq![SPACE],
            ButtonContent::Icon(_) => "icon".spec_bytes(),
        };
        seq![crate::component::OPEN_MARK] + "Button".spec_bytes() + seq![SPACE] + body + seq![
            crate::component::CLOSE_MARK,
        ]
    }

    fn event(&mut self, ctx: &mut EventCtx, event: Event) -> (r: Option<ButtonMsg>) {
        match event {
            Event::HumanInput(T1HidEvent::ButtonPressed(which)) => {
                match self.state {
                    State::Disabled => {},
                    _ => {
                        if self.pos.hit(&which) {
                            self.set(ctx, State::Pressed);
                        }
                    },
                }
            },
            Event::HumanInput(T1HidEvent::ButtonReleased(which)) => {
                if self.state == State::Pressed && self.pos.hit(&which) {
                    self.set(ctx, State::Initial);
                    return Some(ButtonMsg::Clicked);
                }
            },
            _ => {},
        }
        None
    }

    fn paint(&mut self, out: &mut Canvas) {
        let style = self.style();
        let button_y: i32 = HEIGHT - BUTTON_HEIGHT;
        match &self.content {
            ButtonContent::Text(text) => {
                let width: i128 = text_width(text.as_slice());
                let button_x: i128 = match self.pos {
                    ButtonPos::Left => 0,
                    ButtonPos::Right => WIDTH as i128 - width + 1,
                };
                if style.border_horiz {
                    out.push(
                        DrawOp::RoundedFill {
                            area: Rect {
                                x0: coord(button_x - 4),
                                y0: button_y,
                                x1: coord(button_x - 4 + width + 3),
                                y1: button_y + BUTTON_HEIGHT,
                            },
                            fg: style.background_color,
                            bg: theme::BG,
                        },
                    );
                } else {
                    out.push(
                        DrawOp::Fill {
                            area: Rect {
                                x0: coord(button_x),
                                y0: button_y,
                                x1: coord(button_x + width - 1),
                                y1: button_y + BUTTON_HEIGHT,
                            },
                            color: style.background_color,
                        },
                    );
                }
                let h_border: i128 = if style.border_horiz {
                    2
                } else {
                    0
                };
                let baseline_x: i128 = match self.pos {
                    ButtonPos::Left => h_border,
                    ButtonPos::Right => WIDTH as i128 - h_border + 1 - width,
                };
                out.push(
                    DrawOp::Text {
                        origin: Point::new(coord(baseline_x), button_y + TEXT_HEIGHT + 1),
                        text: slice_to_vec(text.as_slice()),
                        font: style.font,
                        fg: style.text_color,
                        bg: style.background_color,
                    },
                );
                assert(out@ =~= old(out)@ + self.drawing());
            },
            ButtonContent::Icon(image) => {
                let area = if self.pos == ButtonPos::Left {
                    Rect { x0: 0, y0: button_y, x1: WIDTH / 2, y1: HEIGHT }
                } else {
                    Rect { x0: WIDTH / 2, y0: button_y, x1: WIDTH, y1: HEIGHT }
                };
                out.push(DrawOp::Fill { area, color: style.background_color });
                out.push(
                    DrawOp::Icon {
                        origin: Point::new(area.x0, area.y0),
                        image: slice_to_vec(image),
                        fg: style.text_color,
                        bg: style.background_color,
                    },
                );
                assert(out@ =~= old(out)@ + self.drawing());
            },
        }
    }

    fn trace(&self, t: &mut Tracer) {
        t.open("Button");
        match &self.content {
            ButtonContent::Text(text) => {
                t.field_start("text");
                t.bytes(text.as_slice());
                t.field_end();
            },
            ButtonContent::Icon(_) => t.string("icon"),
        }
        t.close();
        assert(t@ =~= old(t)@ + self.trace_spec());
    }
}

/// A button that is disabled ignores every event: it stays disabled, emits
/// nothing and asks for no paint.
pub proof fn lemma_disabled_ignores_input(b: Button, event: Event)
    requires
        b.state == State::Disabled,
    ensures
        b.after_event(event) == b,
        b.msg_for(event) is None,
        !b.requests_paint(event),
{
}

/// The transition table of a button: a press of its own button moves any
/// enabled state to pressed; a release of its own button while pressed goes
/// back to the initial state and is the only event that clicks; all other
/// events leave the state as it is, and only a press of its own button makes
/// it pressed. A paint is asked for exactly when the state changes.
pub proof fn lemma_button_transitions(b: Button, event: Event)
    ensures
        b.msg_for(event) == Some(ButtonMsg::Clicked) <==> (b.state == State::Pressed && exists|
            w: T1Button,
        | event == Event::HumanInput(T1HidEvent::ButtonReleased(w)) && hit_spec(b.pos, w)),
        b.msg_for(event) is Some ==> b.after_event(event).state == State::Initial,
        forall|w: T1Button|
            event == Event::HumanInput(T1HidEvent::ButtonPressed(w)) && hit_spec(b.pos, w)
                && b.state != State::Disabled ==> b.after_event(event).state == State::Pressed,
        b.msg_for(event) is None && !(exists|w: T1Button|
            event == Event::HumanInput(T1HidEvent::ButtonPressed(w)) && hit_spec(b.pos, w)
                && b.state != State::Disabled) ==> b.after_event(event) == b,
        b.requests_paint(event) <==> b.after_event(event).state != b.state,
        b.after_event(event).state == State::Pressed && b.state != State::Pressed ==> exists|
            w: T1Button,
        | event == Event::HumanInput(T1HidEvent::ButtonPressed(w)) && hit_spec(b.pos, w),
        b.after_event(event).pos == b.pos && b.after_event(event).content == b.content
            && b.after_event(event).styles == b.styles,
{
    match event {
        Event::HumanInput(T1HidEvent::ButtonReleased(w)) => {
            if b.state == State::Pressed && hit_spec(b.pos, w) {
            }
        },
        _ => {},
    }
}

/// A click comes only from a release that directly follows an accepted press
/// of the same button: after a matching press the button is pressed, and from
/// there a matching release clicks; any event that leaves an enabled, idle
/// button unpressed does not click.
pub proof fn lemma_click_needs_press(b: Button, w: T1Button, event: Event)
    requires
        b.state != State::Disabled,
        hit_spec(b.pos, w),
    ensures
        b.after_event(Event::HumanInput(T1HidEvent::ButtonPressed(w))).msg_for(
            Event::HumanInput(T1HidEvent::ButtonReleased(w)),
        ) == Some(ButtonMsg::Clicked),
        b.state != State::Pressed ==> b.msg_for(event) is None,
{
}

} // verus!
