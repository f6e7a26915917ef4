use trezor_ui::error::Error;
use trezor_ui::geometry::Point;
use trezor_ui::model::{T1Button, T1HidEvent, TTHidEvent};

#[test]
fn button_events_round_trip() {
    for (code, a, e) in [
        (1, 0, T1HidEvent::ButtonPressed(T1Button::Left)),
        (1, 1, T1HidEvent::ButtonPressed(T1Button::Right)),
        (2, 0, T1HidEvent::ButtonReleased(T1Button::Left)),
        (2, 1, T1HidEvent::ButtonReleased(T1Button::Right)),
    ] {
        assert_eq!(T1HidEvent::new(code, a, 12345), Ok(e));
    }
}

#[test]
fn button_events_reject_bad_input() {
    assert_eq!(T1HidEvent::new(0, 0, 0), Err(Error::OutOfRange));
    assert_eq!(T1HidEvent::new(3, 1, 0), Err(Error::OutOfRange));
    assert_eq!(T1HidEvent::new(1, 2, 0), Err(Error::OutOfRange));
    assert_eq!(T1HidEvent::new(2, u32::MAX, 0), Err(Error::OutOfRange));
}

#[test]
fn touch_events_classify() {
    assert_eq!(TTHidEvent::new(1, 5, 6), Ok(TTHidEvent::TouchStart(Point::new(5, 6))));
    assert_eq!(TTHidEvent::new(2, 0, 0), Ok(TTHidEvent::TouchMove(Point::new(0, 0))));
    assert_eq!(
        TTHidEvent::new(4, 0x7fff_ffff, 1),
        Ok(TTHidEvent::TouchEnd(Point::new(0x7fff_ffff, 1)))
    );
}

#[test]
fn touch_events_reject_bad_input() {
    assert_eq!(TTHidEvent::new(3, 5, 6), Err(Error::OutOfRange));
    assert_eq!(TTHidEvent::new(1, 0x8000_0000, 6), Err(Error::OutOfRange));
    assert_eq!(TTHidEvent::new(1, 5, u32::MAX), Err(Error::OutOfRange));
}
