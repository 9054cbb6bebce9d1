use icmt::event::Event;
use icmt::types::{byte_ceil, event_info, nat_ceil, skip_event, text_color, user_name, UserKind};

#[test]
fn byte_ceil_clamps() {
    assert_eq!(byte_ceil(0), 0);
    assert_eq!(byte_ceil(255), 255);
    assert_eq!(byte_ceil(256), 255);
    assert_eq!(byte_ceil(u64::MAX), 255);
}

#[test]
fn nat_ceil_keeps_value() {
    assert_eq!(nat_ceil(640), 640);
    assert_eq!(nat_ceil(u32::MAX as u64), u32::MAX);
}

#[test]
fn user_name_and_color_of_user_kinds() {
    let local = UserKind::Local(("alice".to_string(), (1, 2, 3)));
    assert_eq!(user_name(&local), Some("alice".to_string()));
    assert_eq!(text_color(&local), Some((1, 2, 3)));
    let replay = UserKind::Replay(vec![]);
    assert_eq!(user_name(&replay), None);
    assert_eq!(text_color(&replay), None);
}

#[test]
fn skip_event_carries_user_information() {
    let local = UserKind::Local(("bob".to_string(), (10, 20, 30)));
    let e = skip_event(&local);
    assert_eq!(e.event, Event::Skip);
    assert_eq!(e.user_info.user_name, "bob");
    assert_eq!(e.user_info.text_color, ((10, 20, 30), (0, 0, 0)));
    assert_eq!(e.nonce, None);
    assert!(!e.date_time_local.is_empty());
    assert!(!e.date_time_utc.is_empty());
}

#[test]
fn event_info_keeps_event() {
    let e = event_info(&("carol".to_string(), (0, 0, 0)), Event::ClipBoard("x".to_string()));
    assert_eq!(e.event, Event::ClipBoard("x".to_string()));
    assert_eq!(e.user_info.user_name, "carol");
}
