use trezor_ui::button::{Button, ButtonPos};
use trezor_ui::component::{Child, Component};
use trezor_ui::dialog::Dialog;
use trezor_ui::display::{Canvas, DrawOp};
use trezor_ui::geometry::{screen, Point, Rect};
use trezor_ui::text::Text;
use trezor_ui::theme;

#[test]
fn left_framed_button_paint() {
    let mut b = Button::with_text(ButtonPos::Left, "Left", theme::button_default());
    let mut out = Canvas::new();
    b.paint(&mut out);
    let ops = out.into_ops();
    assert_eq!(ops.len(), 2);
    match &ops[0] {
        DrawOp::RoundedFill { area, fg, bg } => {
            assert_eq!(*area, Rect { x0: -4, y0: 53, x1: 23, y1: 64 });
            assert_eq!(*fg, theme::FG);
            assert_eq!(*bg, theme::BG);
        }
        _ => panic!("expected a rounded fill"),
    }
    match &ops[1] {
        DrawOp::Text { origin, text, fg, .. } => {
            assert_eq!(*origin, Point::new(2, 61));
            assert_eq!(text.as_slice(), b"Left");
            assert_eq!(*fg, theme::BG);
        }
        _ => panic!("expected text"),
    }
}

#[test]
fn right_plain_button_paint() {
    let mut b = Button::with_text(ButtonPos::Right, "No", theme::button_cancel());
    let mut out = Canvas::new();
    b.paint(&mut out);
    let ops = out.into_ops();
    match &ops[0] {
        DrawOp::Fill { area, color } => {
            assert_eq!(*area, Rect { x0: 117, y0: 53, x1: 128, y1: 64 });
            assert_eq!(*color, theme::BG);
        }
        _ => panic!("expected a fill"),
    }
    match &ops[1] {
        DrawOp::Text { origin, .. } => assert_eq!(*origin, Point::new(117, 61)),
        _ => panic!("expected text"),
    }
}

#[test]
fn dialog_paints_header_first_then_children_once() {
    let mut d = Child::new(Dialog::new(
        screen(),
        |area| Text::new(area, "Body"),
        Some(|_area| Button::with_text(ButtonPos::Left, "L", theme::button_default())),
        None::<fn(Rect) -> Button>,
        Some(b"Head".to_vec()),
    ));
    let mut out = Canvas::new();
    d.paint(&mut out);
    let ops = out.into_ops();
    assert_eq!(ops.len(), 5);
    match &ops[0] {
        DrawOp::Text { origin, text, .. } => {
            assert_eq!(*origin, Point::new(0, 7));
            assert_eq!(text.as_slice(), b"Head");
        }
        _ => panic!("expected the header"),
    }
    match &ops[1] {
        DrawOp::DottedLine { start, .. } => assert_eq!(*start, Point::new(0, 9)),
        _ => panic!("expected the rule"),
    }
    match &ops[2] {
        DrawOp::Text { origin, text, .. } => {
            assert_eq!(*origin, Point::new(0, 22));
            assert_eq!(text.as_slice(), b"Body");
        }
        _ => panic!("expected the content"),
    }
    let mut again = Canvas::new();
    d.paint(&mut again);
    assert_eq!(again.ops.len(), 0);
}

#[test]
fn icon_button_paint_draws_image_in_style() {
    let image: &'static [u8] = &[1, 2, 3];
    let mut b = Button::with_icon(ButtonPos::Right, image, theme::button_default());
    let mut out = Canvas::new();
    b.paint(&mut out);
    let ops = out.into_ops();
    assert_eq!(ops.len(), 2);
    match &ops[0] {
        DrawOp::Fill { area, color } => {
            assert_eq!(*area, Rect { x0: 64, y0: 53, x1: 128, y1: 64 });
            assert_eq!(*color, theme::FG);
        }
        _ => panic!("expected a fill"),
    }
    match &ops[1] {
        DrawOp::Icon { origin, image, fg, bg } => {
            assert_eq!(*origin, Point::new(64, 53));
            assert_eq!(image.as_slice(), &[1u8, 2, 3][..]);
            assert_eq!(*fg, theme::BG);
            assert_eq!(*bg, theme::FG);
        }
        _ => panic!("expected an icon"),
    }
}

#[test]
fn long_right_label_extends_left_of_display() {
    let label = "x".repeat(5000);
    let mut b = Button::with_text(ButtonPos::Right, &label, theme::button_cancel());
    let mut out = Canvas::new();
    b.paint(&mut out);
    let ops = out.into_ops();
    match &ops[0] {
        DrawOp::Fill { area, .. } => {
            assert_eq!(area.x0, 128 - 30000 + 1);
            assert_eq!(area.x1, 128);
        }
        _ => panic!("expected a fill"),
    }
}
