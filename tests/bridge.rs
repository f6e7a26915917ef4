use trezor_ui::bridge::{
    confirm_format, dialog_msg_to_obj, new_confirm_action, obj_to_bool, obj_to_buffer,
    obj_to_optional_buffer,
    unpack_args, Obj,
};
use trezor_ui::button::ButtonContent;
use trezor_ui::component::{Component, Tracer};
use trezor_ui::dialog::DialogMsg;
use trezor_ui::error::Error;

fn s(v: &str) -> Obj {
    Obj::Str(v.as_bytes().to_vec())
}

fn args() -> Vec<Obj> {
    vec![
        s("Title"),
        s("Send"),
        s("Really send?"),
        s("Yes"),
        s("No"),
        Obj::Bool(false),
        Obj::Bool(false),
    ]
}

#[test]
fn confirm_action_builds_dialog() {
    let a = args();
    let c = new_confirm_action(7, &a).unwrap();
    let d = &c.component;
    assert_eq!(d.header.as_deref(), Some(&b"Title"[..]));
    let left = d.left_btn.as_ref().unwrap();
    match &left.component.content {
        ButtonContent::Text(t) => assert_eq!(t.as_slice(), b"No"),
        _ => panic!("expected a text label"),
    }
    let right = d.right_btn.as_ref().unwrap();
    match &right.component.content {
        ButtonContent::Text(t) => assert_eq!(t.as_slice(), b"Yes"),
        _ => panic!("expected a text label"),
    }
    let mut t = Tracer::new();
    c.trace(&mut t);
    let dump = String::from_utf8(t.into_bytes()).unwrap();
    assert!(dump.starts_with("<Dialog content:<Text content:Send\n"));
}

#[test]
fn confirm_action_missing_verbs_give_no_buttons() {
    let mut a = args();
    a[3] = Obj::Null;
    a[4] = Obj::Null;
    let c = new_confirm_action(7, &a).unwrap();
    assert!(c.component.left_btn.is_none());
    assert!(c.component.right_btn.is_none());
}

#[test]
fn confirm_action_errors() {
    let a = args();
    assert_eq!(new_confirm_action(6, &a).err(), Some(Error::TypeError));
    assert_eq!(new_confirm_action(7, &a[..5]).err(), Some(Error::OutOfRange));
    let mut b = args();
    b[0] = Obj::Int(1);
    assert_eq!(new_confirm_action(7, &b).err(), Some(Error::TypeError));
    let mut b = args();
    b[6] = Obj::Null;
    assert_eq!(new_confirm_action(7, &b).err(), Some(Error::TypeError));
    let mut b = args();
    b[4] = Obj::Int(4);
    assert_eq!(new_confirm_action(7, &b).err(), Some(Error::TypeError));
    let mut b = args();
    b[1] = Obj::Bool(true);
    assert_eq!(new_confirm_action(7, &b).err(), Some(Error::TypeError));
}

#[test]
fn confirm_action_accepts_long_verbs() {
    let mut a = args();
    a[3] = Obj::Str(vec![b'a'; 5000]);
    let c = new_confirm_action(7, &a).unwrap();
    match &c.component.right_btn.as_ref().unwrap().component.content {
        ButtonContent::Text(t) => assert_eq!(t.len(), 5000),
        _ => panic!("expected a text label"),
    }
}

#[test]
fn confirm_action_missing_action_uses_description_only() {
    let mut a = args();
    a[1] = Obj::Null;
    let c = new_confirm_action(7, &a).unwrap();
    assert_eq!(
        c.component.content.component.format.as_slice(),
        b"{normal}{description}"
    );
}

#[test]
fn confirm_format_choices() {
    assert_eq!(confirm_format(true, true, false), "{bold}{action}\n\r{normal}{description}");
    assert_eq!(confirm_format(true, true, true), "{normal}{description}\n\r{bold}{action}");
    assert_eq!(confirm_format(true, false, true), "{bold}{action}");
    assert_eq!(confirm_format(false, true, false), "{normal}{description}");
    assert_eq!(confirm_format(false, false, false), "");
}

#[test]
fn argument_decoding() {
    let a = args();
    assert_eq!(unpack_args(2, &a).unwrap().len(), 2);
    assert_eq!(unpack_args(8, &a).err(), Some(Error::OutOfRange));
    assert_eq!(obj_to_buffer(&s("x")), Ok(b"x".to_vec()));
    assert_eq!(obj_to_buffer(&Obj::Null), Err(Error::TypeError));
    assert_eq!(obj_to_bool(&Obj::Bool(true)), Ok(true));
    assert_eq!(obj_to_optional_buffer(&Obj::Null), Ok(None));
    assert_eq!(obj_to_optional_buffer(&s("y")), Ok(Some(b"y".to_vec())));
    assert_eq!(obj_to_optional_buffer(&Obj::Int(0)), Err(Error::TypeError));
    assert_eq!(obj_to_bool(&Obj::Int(1)), Err(Error::TypeError));
}

#[test]
fn dialog_messages_to_objects() {
    assert!(matches!(dialog_msg_to_obj(DialogMsg::LeftClicked), Obj::Int(1)));
    assert!(matches!(dialog_msg_to_obj(DialogMsg::RightClicked), Obj::Int(2)));
    assert!(matches!(dialog_msg_to_obj(DialogMsg::Content(())), Obj::Null));
}
