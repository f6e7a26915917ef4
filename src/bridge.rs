use vstd::prelude::*;
use vstd::slice::slice_to_vec;
use vstd::string::*;

use crate::button::{Button, ButtonContent, ButtonPos};
use crate::component::Child;
use crate::dialog::{dialog_areas, Dialog, DialogMsg};
use crate::error::Error;
use crate::geometry::{lemma_hsplit_partition, screen, Rect};
use crate::text::Text;
use crate::theme;

verus! {

/// A value handed across the boundary by the host runtime.
#[derive(Clone, Debug)]
pub enum Obj {
    Null,
    Bool(bool),
    Int(i64),
    Str(Vec<u8>),
}

/// Number of arguments of the confirm-action entry point.
pub const CONFIRM_ACTION_ARGS: usize = 7;

/// The first `n_args` arguments of `args`, or a range error if the runtime
/// announced more arguments than it passed.
pub fn unpack_args(n_args: usize, args: &[Obj]) -> (r: Result<&[Obj], Error>)
    ensures
        n_args <= args@.len() ==> (r matches Ok(s) && s@ == args@.subrange(0, n_args as int)),
        n_args > args@.len() ==> r == Err::<&[Obj], Error>(Error::OutOfRange),
{
    if n_args <= args.len() {
        Ok(vstd::slice::slice_subrange(args, 0, n_args))
    } else {
        Err(Error::OutOfRange)
    }
}

/// Decodes a string argument.
pub fn obj_to_buffer(obj: &Obj) -> (r: Result<Vec<u8>, Error>)
    ensures
        *obj matches Obj::Str(s) ==> r matches Ok(b) && b@ == s@,
        !(obj is Str) ==> r == Err::<Vec<u8>, Error>(Error::TypeError),
{
    match obj {
        Obj::Str(s) => Ok(slice_to_vec(s.as_slice())),
        _ => Err(Error::TypeError),
    }
}

/// Decodes a boolean argument.
pub fn obj_to_bool(obj: &Obj) -> (r: Result<bool, Error>)
    ensures
        *obj matches Obj::Bool(b) ==> r == Ok::<bool, Error>(b),
        !(obj is Bool) ==> r == Err::<bool, Error>(Error::TypeError),
{
    match obj {
        Obj::Bool(b) => Ok(*b),
        _ => Err(Error::TypeError),
    }
}

/// The value a dialog message is reported to the runtime as.
pub fn dialog_msg_to_obj(msg: DialogMsg<()>) -> (r: Obj)
    ensures
        msg is Content ==> r is Null,
        msg is LeftClicked ==> r == Obj::Int(1),
        msg is RightClicked ==> r == Obj::Int(2),
{
    match msg {
        DialogMsg::Content(_) => Obj::Null,
        DialogMsg::LeftClicked => Obj::Int(1),
        DialogMsg::RightClicked => Obj::Int(2),
    }
}

/// Template of the confirm dialog's text: which of the action and the
/// description it shows, in which order and in which font.
pub open spec fn confirm_format_spec(has_action: bool, has_description: bool, reverse: bool) -> Seq<u8> {
    if has_action && has_description && !reverse {
        "{bold}{action}\n\r{normal}{description}".spec_bytes()
    } else if has_action && has_description {
        "{normal}{description}\n\r{bold}{action}".spec_bytes()
    } else if has_action {
        "{bold}{action}".spec_bytes()
    } else if has_description {
        "{normal}{description}".spec_bytes()
    } else {
        "".spec_bytes()
    }
}

/// Template of the confirm dialog's text.
pub fn confirm_format(has_action: bool, has_description: bool, reverse: bool) -> (r: &'static str)
    ensures
        r.spec_bytes() == confirm_format_spec(has_action, has_description, reverse),
{
    if has_action && has_description && !reverse {
        "{bold}{action}\n\r{normal}{description}"
    } else if has_action && has_description {
        "{normal}{description}\n\r{bold}{action}"
    } else if has_action {
        "{bold}{action}"
    } else if has_description {
        "{normal}{description}"
    } else {
        ""
    }
}

/// Decodes a string argument that may be missing: `Null` is missing, a
/// string is given, anything else is a type error.
pub fn obj_to_optional_buffer(obj: &Obj) -> (r: Result<Option<Vec<u8>>, Error>)
    ensures
        *obj matches Obj::Str(s) ==> (r matches Ok(Some(b)) && b@ == s@),
        obj is Null ==> r == Ok::<Option<Vec<u8>>, Error>(None),
        !(obj is Str || obj is Null) ==> r == Err::<Option<Vec<u8>>, Error>(Error::TypeError),
{
    match obj {
        Obj::Null => Ok(None),
        Obj::Str(s) => Ok(Some(slice_to_vec(s.as_slice()))),
        _ => Err(Error::TypeError),
    }
}

/// Bytes of an optional string argument, empty when it is missing.
pub open spec fn arg_bytes(obj: Obj) -> Seq<u8> {
    match obj {
        Obj::Str(s) => s@,
        _ => Seq::empty(),
    }
}

/// The argument is a string or missing.
pub open spec fn optional_str(obj: Obj) -> bool {
    obj is Str || obj is Null
}

/// Builds the confirm-action dialog from the runtime's arguments: title,
/// action, description, confirm verb, cancel verb, hold flag and reverse
/// flag. The title is the header; the action and the description fill the
/// content; each verb that is given labels a button. The wrong number of
/// arguments, a title that is no string, an optional argument that is
/// neither a string nor missing, or a flag that is no boolean is a type
/// error.
pub fn new_confirm_action(n_args: usize, args: &[Obj]) -> (r: Result<Child<Dialog<Text>>, Error>)
    ensures
        n_args != CONFIRM_ACTION_ARGS ==> r == Err::<Child<Dialog<Text>>, Error>(Error::TypeError),
        n_args == CONFIRM_ACTION_ARGS && n_args > args@.len() ==> r == Err::<
            Child<Dialog<Text>>,
            Error,
        >(Error::OutOfRange),
        n_args == CONFIRM_ACTION_ARGS && n_args <= args@.len() ==> {
            let ok = args@[0] is Str && optional_str(args@[1]) && optional_str(args@[2])
                && optional_str(args@[3]) && optional_str(args@[4]) && args@[5] is Bool
                && args@[6] is Bool;
            &&& r is Ok <==> ok
            &&& !ok ==> r == Err::<Child<Dialog<Text>>, Error>(Error::TypeError)
            &&& r matches Ok(c) ==> {
                let d = c.component;
                &&& c.marked_for_paint
                &&& d.header matches Some(h) && h@ == arg_bytes(args@[0])
                &&& d.content.component.format@ == confirm_format_spec(
                    args@[1] is Str,
                    args@[2] is Str,
                    args@[6] matches Obj::Bool(b) && b,
                )
                &&& d.content.component.args@.len() == 2
                &&& d.content.component.args@[0].0@ == "action".spec_bytes()
                &&& d.content.component.args@[0].1@ == arg_bytes(args@[1])
                &&& d.content.component.args@[1].0@ == "description".spec_bytes()
                &&& d.content.component.args@[1].1@ == arg_bytes(args@[2])
                &&& d.left_btn is Some <==> args@[4] is Str
                &&& d.left_btn matches Some(b) ==> button_is(
                    b.component,
                    ButtonPos::Left,
                    arg_bytes(args@[4]),
                    theme::cancel_styles(),
                )
                &&& d.right_btn is Some <==> args@[3] is Str
                &&& d.right_btn matches Some(b) ==> button_is(
                    b.component,
                    ButtonPos::Right,
                    arg_bytes(args@[3]),
                    theme::default_styles(),
                )
            }
        },
{
    if n_args != CONFIRM_ACTION_ARGS {
        return Err(Error::TypeError);
    }
    let args = unpack_args(n_args, args)?;
    let title = obj_to_buffer(&args[0])?;
    let action = obj_to_optional_buffer(&args[1])?;
    let description = obj_to_optional_buffer(&args[2])?;
    let verb = obj_to_optional_buffer(&args[3])?;
    let verb_cancel = obj_to_optional_buffer(&args[4])?;
    let _hold = obj_to_bool(&args[5])?;
    let reverse = obj_to_bool(&args[6])?;
    let format = confirm_format(action.is_some(), description.is_some(), reverse);
    let action_bytes = match action {
        Some(a) => a,
        None => Vec::new(),
    };
    let description_bytes = match description {
        Some(d) => d,
        None => Vec::new(),
    };
    let left = match verb_cancel {
        Some(label) => {
            let make = move |_area: Rect| -> (b: Button)
                ensures
                    button_is(b, ButtonPos::Left, label@, theme::cancel_styles()),
            {
                Button::new(ButtonPos::Left, ButtonContent::Text(label), theme::button_cancel())
            };
            Some(make)
        },
        None => None,
    };
    let right = match verb {
        Some(label) => {
            let make = move |_area: Rect| -> (b: Button)
                ensures
                    button_is(b, ButtonPos::Right, label@, theme::default_styles()),
            {
                Button::new(ButtonPos::Right, ButtonContent::Text(label), theme::button_default())
            };
            Some(make)
        },
        None => None,
    };
    let area = screen();
    proof {
        lemma_hsplit_partition(area, -crate::button::BUTTON_HEIGHT as int);
        let above = area.hsplit_spec(-crate::button::BUTTON_HEIGHT as int).0;
        lemma_hsplit_partition(above, crate::dialog::HEADER_HEIGHT as int);
    }
    let content = move |area: Rect| -> (t: Text)
        requires
            area.wf(),
        ensures
            t.format@ == format.spec_bytes(),
            t.args@.len() == 2,
            t.args@[0].0@ == "action".spec_bytes(),
            t.args@[0].1@ == action_bytes@,
            t.args@[1].0@ == "description".spec_bytes(),
            t.args@[1].1@ == description_bytes@,
        {
            Text::new(area, format).with(
                "action".as_bytes_vec().as_slice(),
                action_bytes.as_slice(),
            ).with("description".as_bytes_vec().as_slice(), description_bytes.as_slice())
        };
    let dialog = Dialog::new(area, content, left, right, Some(title));
    Ok(Child::new(dialog))
}

/// The button sits at `pos`, shows the label `label` with the styles
/// `styles`, and is in its initial state.
pub open spec fn button_is(b: Button, pos: ButtonPos, label: Seq<u8>, styles: crate::button::ButtonStyleSheet) -> bool {
    &&& b.pos == pos
    &&& b.content matches ButtonContent::Text(t) && t@ == label
    &&& b.styles == styles
    &&& b.state == crate::button::State::Initial
}

} // verus!
