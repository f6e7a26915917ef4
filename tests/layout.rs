use trezor_ui::button::{Button, ButtonPos};
use trezor_ui::component::{Child, Component, Tracer};
use trezor_ui::dialog::Dialog;
use trezor_ui::geometry::screen;
use trezor_ui::text::Text;
use trezor_ui::theme;

fn trace<T: Component>(val: &T) -> String {
    let mut t = Tracer::new();
    val.trace(&mut t);
    String::from_utf8(t.into_bytes()).unwrap()
}

#[test]
fn trace_example_layout() {
    let layout = Child::new(Dialog::new(
        screen(),
        |area| {
            Text::new(
                area,
                "Testing text layout, with some text, and some more text. And {param}",
            )
            .with(b"param", b"parameters!")
        },
        Some(|_area| Button::with_text(ButtonPos::Left, "Left", theme::button_default())),
        Some(|_area| Button::with_text(ButtonPos::Right, "Right", theme::button_default())),
        None,
    ));
    assert_eq!(
        trace(&layout),
        r#"<Dialog content:<Text content:Testing text layout,
with some text, and
some more text. And p-
arameters! > left:<Button text:Left > right:<Button text:Right > >"#
    )
}

#[test]
fn text_without_placeholder_value_drops_it() {
    let t = Text::new(screen(), "Hello {who}!");
    assert_eq!(trace(&t), "<Text content:Hello ! >");
}

#[test]
fn text_breaks_at_line_feed() {
    let t = Text::new(screen(), "one\ntwo");
    assert_eq!(trace(&t), "<Text content:one\ntwo >");
}

#[test]
fn dialog_with_header_traces_children() {
    let d = Dialog::new(
        screen(),
        |area| Text::new(area, "Body"),
        None::<fn(trezor_ui::geometry::Rect) -> Button>,
        Some(|_area| Button::with_text(ButtonPos::Right, "OK", theme::button_default())),
        Some(b"Title".to_vec()),
    );
    assert_eq!(trace(&d), "<Dialog content:<Text content:Body > right:<Button text:OK > >");
}
