use vstd::prelude::*;

use crate::error::Error;
use crate::geometry::Point;

verus! {

/// A physical button of a button-class device.
#[derive(Copy, Clone, PartialEq, Eq, Structural, Debug)]
pub enum T1Button {
    Left,
    Right,
}

/// Input event of a button-class device.
#[derive(Copy, Clone, PartialEq, Eq, Structural, Debug)]
pub enum T1HidEvent {
    ButtonPressed(T1Button),
    ButtonReleased(T1Button),
}

/// Input event of a touch-class device.
#[derive(Copy, Clone, PartialEq, Eq, Structural, Debug)]
pub enum TTHidEvent {
    TouchStart(Point),
    TouchMove(Point),
    TouchEnd(Point),
}

/// Token identifying a timer scheduled by the host runtime.
#[derive(Copy, Clone, PartialEq, Eq, Structural, Debug)]
pub struct TimerToken(pub u32);

/// An event delivered to a component tree.
#[derive(Copy, Clone, PartialEq, Eq, Structural, Debug)]
pub enum Event {
    HumanInput(T1HidEvent),
    Timer(TimerToken),
}

/// Button named by the raw operand `a`.
pub open spec fn t1_button_of(a: u32) -> Option<T1Button> {
    if a == 0 {
        Some(T1Button::Left)
    } else if a == 1 {
        Some(T1Button::Right)
    } else {
        None
    }
}

/// Classification of a raw `(code, a)` pair of a button-class device.
pub open spec fn t1_classify(code: u32, a: u32) -> Result<T1HidEvent, Error> {
    match t1_button_of(a) {
        None => Err(Error::OutOfRange),
        Some(b) => if code == 1 {
            Ok(T1HidEvent::ButtonPressed(b))
        } else if code == 2 {
            Ok(T1HidEvent::ButtonReleased(b))
        } else {
            Err(Error::OutOfRange)
        },
    }
}

/// The raw `(code, a)` pair that stands for a button-class event.
pub open spec fn t1_encode(e: T1HidEvent) -> (u32, u32) {
    let (code, b) = match e {
        T1HidEvent::ButtonPressed(b) => (1u32, b),
        T1HidEvent::ButtonReleased(b) => (2u32, b),
    };
    (code, if b == T1Button::Left { 0u32 } else { 1u32 })
}

/// Classification of a raw `(code, x, y)` triple of a touch-class device.
pub open spec fn tt_classify(code: u32, x: u32, y: u32) -> Result<TTHidEvent, Error> {
    if x > i32::MAX || y > i32::MAX {
        Err(Error::OutOfRange)
    } else {
        let p = Point { x: x as i32, y: y as i32 };
        if code == 1 {
            Ok(TTHidEvent::TouchStart(p))
        } else if code == 2 {
            Ok(TTHidEvent::TouchMove(p))
        } else if code == 4 {
            Ok(TTHidEvent::TouchEnd(p))
        } else {
            Err(Error::OutOfRange)
        }
    }
}

/// The raw `(code, x, y)` triple that stands for a touch-class event.
pub open spec fn tt_encode(e: TTHidEvent) -> (u32, u32, u32) {
    let (code, p) = match e {
        TTHidEvent::TouchStart(p) => (1u32, p),
        TTHidEvent::TouchMove(p) => (2u32, p),
        TTHidEvent::TouchEnd(p) => (4u32, p),
    };
    (code, p.x as u32, p.y as u32)
}

impl T1HidEvent {
    /// Classifies the raw event `code` (1 pressed, 2 released) and the
    /// button operand (0 left, 1 right); the last operand is reserved.
    pub fn new(event: u32, button: u32, _unused: u32) -> (r: Result<T1HidEvent, Error>)
        ensures
            r == t1_classify(event, button),
    {
        let button = match button {
            0 => T1Button::Left,
            1 => T1Button::Right,
            _ => return Err(Error::OutOfRange),
        };
        let result = match event {
            1 => T1HidEvent::ButtonPressed(button),
            2 => T1HidEvent::ButtonReleased(button),
            _ => return Err(Error::OutOfRange),
        };
        Ok(result)
    }
}

/// Converts a raw coordinate into the display's coordinate domain.
fn coordinate(v: u32) -> (r: Result<i32, Error>)
    ensures
        v <= i32::MAX ==> r == Ok::<i32, Error>(v as i32),
        v > i32::MAX ==> r == Err::<i32, Error>(Error::OutOfRange),
{
    if v <= 0x7fff_ffff {
        Ok(v as i32)
    } else {
        Err(Error::OutOfRange)
    }
}

impl TTHidEvent {
    /// Classifies the raw event `code` (1 start, 2 move, 4 end) at the
    /// coordinates `(x, y)`.
    pub fn new(event: u32, x: u32, y: u32) -> (r: Result<TTHidEvent, Error>)
        ensures
            r == tt_classify(event, x, y),
    {
        let px = coordinate(x)?;
        let py = coordinate(y)?;
        let point = Point::new(px, py);
        let result = match event {
            1 => TTHidEvent::TouchStart(point),
            2 => TTHidEvent::TouchMove(point),
            4 => TTHidEvent::TouchEnd(point),
            _ => return Err(Error::OutOfRange),
        };
        Ok(result)
    }
}

/// Every button-class event survives encoding and classifying again.
pub proof fn lemma_t1_round_trip(e: T1HidEvent)
    ensures
        t1_classify(t1_encode(e).0, t1_encode(e).1) == Ok::<T1HidEvent, Error>(e),
{
}

/// Every touch-class event inside the coordinate domain survives encoding and
/// classifying again.
pub proof fn lemma_tt_round_trip(e: TTHidEvent)
    requires
        match e {
            TTHidEvent::TouchStart(p) | TTHidEvent::TouchMove(p) | TTHidEvent::TouchEnd(p) =>
                p.x >= 0 && p.y >= 0,
        },
    ensures
        tt_classify(tt_encode(e).0, tt_encode(e).1, tt_encode(e).2) == Ok::<TTHidEvent, Error>(e),
{
}

/// A button-class code or operand outside its domain is rejected with a
/// range error, and a pair inside both domains never is.
pub proof fn lemma_t1_strict(code: u32, a: u32)
    ensures
        (code != 1 && code != 2) || a > 1 <==> t1_classify(code, a) == Err::<T1HidEvent, Error>(
            Error::OutOfRange,
        ),
        t1_classify(code, a) is Err ==> t1_classify(code, a) == Err::<T1HidEvent, Error>(
            Error::OutOfRange,
        ),
{
}

/// A touch-class code or coordinate outside its domain is rejected with a
/// range error, and a triple inside all domains never is.
pub proof fn lemma_tt_strict(code: u32, x: u32, y: u32)
    ensures
        (code != 1 && code != 2 && code != 4) || x > i32::MAX || y > i32::MAX <==> tt_classify(
            code,
            x,
            y,
        ) == Err::<TTHidEvent, Error>(Error::OutOfRange),
        tt_classify(code, x, y) is Err ==> tt_classify(code, x, y) == Err::<TTHidEvent, Error>(
            Error::OutOfRange,
        ),
{
}

} // verus!
