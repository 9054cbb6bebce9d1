use icmt::event::Event;
use icmt::graphics::Dim;
use icmt::keyboard::{translate_event, translate_system_event, SysEvent, MOD_LCTRL, MOD_LSHIFT, MOD_RALT, MOD_RGUI, MOD_RSHIFT};

#[test]
fn letters_follow_shift() {
    let k = translate_event(97, 0).unwrap();
    assert_eq!(k.key, "a");
    assert!(!k.shift && !k.alt && !k.ctrl && !k.meta);
    let k = translate_event(122, MOD_RSHIFT).unwrap();
    assert_eq!(k.key, "Z");
    assert!(k.shift);
}

#[test]
fn digit_row_types_punctuation_under_shift() {
    assert_eq!(translate_event(49, 0).unwrap().key, "1");
    assert_eq!(translate_event(49, MOD_LSHIFT).unwrap().key, "!");
    assert_eq!(translate_event(48, MOD_LSHIFT).unwrap().key, ")");
    assert_eq!(translate_event(57, MOD_LSHIFT).unwrap().key, "(");
    assert_eq!(translate_event(39, MOD_LSHIFT).unwrap().key, "\"");
    assert_eq!(translate_event(92, 0).unwrap().key, "\\");
}

#[test]
fn named_keys() {
    assert_eq!(translate_event(9, 0).unwrap().key, "Tab");
    assert_eq!(translate_event(32, 0).unwrap().key, " ");
    assert_eq!(translate_event(13, 0).unwrap().key, "Enter");
    assert_eq!(translate_event(8, 0).unwrap().key, "Backspace");
    assert_eq!(translate_event(1073741904, 0).unwrap().key, "ArrowLeft");
    assert_eq!(translate_event(1073741906, MOD_LSHIFT).unwrap().key, "ArrowUp");
}

#[test]
fn modifiers_are_reported() {
    let k = translate_event(120, MOD_LCTRL | MOD_RALT | MOD_RGUI).unwrap();
    assert_eq!(k.key, "x");
    assert!(k.ctrl && k.alt && k.meta && !k.shift);
}

#[test]
fn unrecognized_key_is_dropped() {
    assert!(translate_event(1073741882, 0).is_none()); // F1
    assert!(translate_system_event(SysEvent::KeyDown { keycode: Some(1073741882), keymod: 0 }).is_none());
    assert!(translate_system_event(SysEvent::KeyDown { keycode: None, keymod: 0 }).is_none());
    assert!(translate_system_event(SysEvent::Other).is_none());
}

#[test]
fn quit_and_escape_quit() {
    assert_eq!(translate_system_event(SysEvent::Quit), Some(Event::Quit));
    assert_eq!(
        translate_system_event(SysEvent::KeyDown { keycode: Some(27), keymod: MOD_LSHIFT }),
        Some(Event::Quit)
    );
}

#[test]
fn key_press_becomes_one_key_event() {
    match translate_system_event(SysEvent::KeyDown { keycode: Some(98), keymod: 0 }) {
        Some(Event::KeyDown(keys)) => {
            assert_eq!(keys.len(), 1);
            assert_eq!(keys[0].key, "b");
        }
        other => panic!("unexpected {:?}", other),
    }
}

#[test]
fn resize_becomes_window_size() {
    assert_eq!(
        translate_system_event(SysEvent::SizeChanged(300, 200)),
        Some(Event::WindowSize(Dim { width: 300, height: 200 }))
    );
    assert_eq!(
        translate_system_event(SysEvent::SizeChanged(-5, 10)),
        Some(Event::WindowSize(Dim { width: 0, height: 10 }))
    );
}

#[test]
fn clipboard_text_or_reason() {
    assert_eq!(
        translate_system_event(SysEvent::ClipboardUpdate(Ok("hello".to_string()))),
        Some(Event::ClipBoard("hello".to_string()))
    );
    assert_eq!(
        translate_system_event(SysEvent::ClipboardUpdate(Err("no clipboard".to_string()))),
        Some(Event::ClipBoard("error: no clipboard".to_string()))
    );
}
