use trezor_ui::button::{Button, ButtonMsg, ButtonPos, State};
use trezor_ui::component::{Child, Component, EventCtx};
use trezor_ui::dialog::{Dialog, DialogMsg};
use trezor_ui::display::Canvas;
use trezor_ui::error::Error;
use trezor_ui::geometry::{screen, Rect};
use trezor_ui::model::{Event, T1Button, T1HidEvent, TimerToken};
use trezor_ui::text::Text;
use trezor_ui::theme;

fn press(b: T1Button) -> Event {
    Event::HumanInput(T1HidEvent::ButtonPressed(b))
}

fn release(b: T1Button) -> Event {
    Event::HumanInput(T1HidEvent::ButtonReleased(b))
}

fn confirm_dialog() -> Dialog<Text> {
    Dialog::new(
        screen(),
        |area| Text::new(area, "Really?"),
        Some(|_area| Button::with_text(ButtonPos::Left, "Cancel", theme::button_cancel())),
        Some(|_area| Button::with_text(ButtonPos::Right, "Confirm", theme::button_default())),
        None,
    )
}

fn left_state(d: &Dialog<Text>) -> State {
    d.left_btn.as_ref().unwrap().inner().state()
}

fn right_state(d: &Dialog<Text>) -> State {
    d.right_btn.as_ref().unwrap().inner().state()
}

#[test]
fn left_press_release_clicks_left() {
    let mut d = confirm_dialog();
    let mut ctx = EventCtx::new();
    assert_eq!(d.event(&mut ctx, press(T1Button::Left)), None);
    assert_eq!(left_state(&d), State::Pressed);
    assert_eq!(d.event(&mut ctx, release(T1Button::Left)), Some(DialogMsg::LeftClicked));
    assert_eq!(left_state(&d), State::Initial);
    assert_eq!(right_state(&d), State::Initial);
}

#[test]
fn right_press_release_clicks_right() {
    let mut d = confirm_dialog();
    let mut ctx = EventCtx::new();
    assert_eq!(d.event(&mut ctx, press(T1Button::Right)), None);
    assert_eq!(d.event(&mut ctx, release(T1Button::Right)), Some(DialogMsg::RightClicked));
}

#[test]
fn mismatched_release_yields_nothing() {
    let mut d = confirm_dialog();
    let mut ctx = EventCtx::new();
    assert_eq!(d.event(&mut ctx, press(T1Button::Left)), None);
    assert_eq!(d.event(&mut ctx, release(T1Button::Right)), None);
    assert_eq!(left_state(&d), State::Pressed);
    assert_eq!(right_state(&d), State::Initial);
}

#[test]
fn disabled_right_button_ignores_input() {
    let mut d = confirm_dialog();
    let mut ctx = EventCtx::new();
    d.right_btn.as_mut().unwrap().component.disable(&mut ctx);
    assert!(ctx.paint_requested);
    let mut ctx = EventCtx::new();
    assert_eq!(d.event(&mut ctx, press(T1Button::Right)), None);
    assert_eq!(d.event(&mut ctx, release(T1Button::Right)), None);
    assert_eq!(right_state(&d), State::Disabled);
    assert!(!ctx.paint_requested);
}

#[test]
fn invalid_code_is_range_error() {
    assert_eq!(T1HidEvent::new(99, 0, 0), Err(Error::OutOfRange));
}

#[test]
fn release_without_press_does_not_click() {
    let mut b = Button::with_text(ButtonPos::Left, "A", theme::button_default());
    let mut ctx = EventCtx::new();
    assert_eq!(b.event(&mut ctx, release(T1Button::Left)), None);
    assert_eq!(b.state(), State::Initial);
    assert!(!ctx.paint_requested);
}

#[test]
fn press_requests_paint_and_click_follows() {
    let mut b = Button::with_text(ButtonPos::Right, "A", theme::button_default());
    let mut ctx = EventCtx::new();
    assert_eq!(b.event(&mut ctx, press(T1Button::Left)), None);
    assert!(!ctx.paint_requested);
    assert_eq!(b.event(&mut ctx, press(T1Button::Right)), None);
    assert!(ctx.paint_requested);
    assert_eq!(b.state(), State::Pressed);
    let mut ctx = EventCtx::new();
    assert_eq!(b.event(&mut ctx, Event::Timer(TimerToken(3))), None);
    assert_eq!(b.event(&mut ctx, release(T1Button::Right)), Some(ButtonMsg::Clicked));
    assert!(ctx.paint_requested);
    assert_eq!(b.state(), State::Initial);
}

#[test]
fn enable_and_disable() {
    let mut b = Button::with_text(ButtonPos::Left, "A", theme::button_default());
    let mut ctx = EventCtx::new();
    assert!(b.is_enabled());
    b.enable(&mut ctx);
    assert!(!ctx.paint_requested);
    b.disable(&mut ctx);
    assert!(ctx.paint_requested);
    assert!(b.is_disabled());
    assert!(!b.is_enabled());
    let mut ctx = EventCtx::new();
    b.enable(&mut ctx);
    assert!(ctx.paint_requested);
    assert_eq!(b.state(), State::Initial);
}

#[test]
fn child_paints_only_when_marked() {
    let mut c = Child::new(Button::with_text(ButtonPos::Left, "Left", theme::button_default()));
    let mut out = Canvas::new();
    c.paint(&mut out);
    assert_eq!(out.ops.len(), 2);
    c.paint(&mut out);
    assert_eq!(out.ops.len(), 2);
    let mut ctx = EventCtx::new();
    c.event(&mut ctx, press(T1Button::Right));
    assert!(!c.marked_for_paint);
    c.paint(&mut out);
    assert_eq!(out.ops.len(), 2);
    c.event(&mut ctx, press(T1Button::Left));
    assert!(c.marked_for_paint);
    assert!(ctx.paint_requested);
    c.paint(&mut out);
    assert_eq!(out.ops.len(), 4);
    assert!(!c.marked_for_paint);
}

#[test]
fn child_keeps_outer_paint_request() {
    let mut c = Child::new(Button::with_text(ButtonPos::Left, "Left", theme::button_default()));
    let mut ctx = EventCtx::new();
    ctx.request_paint();
    c.marked_for_paint = false;
    c.event(&mut ctx, press(T1Button::Right));
    assert!(ctx.paint_requested);
    assert!(!c.marked_for_paint);
}

#[test]
fn dialog_areas_follow_layout() {
    let mut seen: Vec<Rect> = Vec::new();
    let _d = Dialog::new(
        screen(),
        |area| {
            assert_eq!(area, Rect { x0: 0, y0: 13, x1: 128, y1: 53 });
            Text::new(area, "")
        },
        Some(|area: Rect| {
            assert_eq!(area, Rect { x0: 0, y0: 53, x1: 64, y1: 64 });
            Button::with_text(ButtonPos::Left, "L", theme::button_default())
        }),
        Some(|area: Rect| {
            assert_eq!(area, Rect { x0: 64, y0: 53, x1: 128, y1: 64 });
            Button::with_text(ButtonPos::Right, "R", theme::button_default())
        }),
        Some(b"Head".to_vec()),
    );
    seen.push(screen());
    assert_eq!(seen.len(), 1);
}
