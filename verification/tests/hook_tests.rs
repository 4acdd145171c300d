use soundbar::key_hook::{on_key_event, KeyEvent};
use soundbar::key_task::{KeyCode, KeyTask, SysKeyCode};

fn empty() -> KeyTask {
    KeyTask {
        key: None,
        sys_key: None,
    }
}

#[test]
fn base_key_press_stores_base_and_keeps_modifier() {
    let mut task = KeyTask {
        key: None,
        sys_key: Some(SysKeyCode::Ctrl),
    };
    on_key_event(&mut task, KeyEvent::KeyDown(0x41));
    assert!(matches!(task.key, Some(KeyCode::A)));
    assert!(matches!(task.sys_key, Some(SysKeyCode::Ctrl)));
}

#[test]
fn modifier_reported_as_ordinary_press_keeps_base() {
    // A modifier arriving as an ordinary key-down touches the modifier
    // field only; the held base key stays observed.
    let mut task = KeyTask {
        key: Some(KeyCode::A),
        sys_key: None,
    };
    on_key_event(&mut task, KeyEvent::KeyDown(0x10));
    assert!(matches!(task.key, Some(KeyCode::A)));
    assert!(matches!(task.sys_key, Some(SysKeyCode::Shift)));
}

#[test]
fn unrecognized_press_clears_both_fields() {
    let mut task = KeyTask {
        key: Some(KeyCode::A),
        sys_key: Some(SysKeyCode::Shift),
    };
    on_key_event(&mut task, KeyEvent::KeyDown(0x07));
    assert!(task.key.is_none());
    assert!(task.sys_key.is_none());
}

#[test]
fn base_key_release_clears_base_only() {
    let mut task = KeyTask {
        key: Some(KeyCode::B),
        sys_key: Some(SysKeyCode::LShift),
    };
    on_key_event(&mut task, KeyEvent::KeyUp(0x42));
    assert!(task.key.is_none());
    assert!(matches!(task.sys_key, Some(SysKeyCode::LShift)));
}

#[test]
fn modifier_press_stores_modifier_and_keeps_base() {
    let mut task = KeyTask {
        key: Some(KeyCode::C),
        sys_key: None,
    };
    on_key_event(&mut task, KeyEvent::SysKeyDown(0xA2));
    assert!(matches!(task.key, Some(KeyCode::C)));
    assert!(matches!(task.sys_key, Some(SysKeyCode::LCtrl)));
}

#[test]
fn modifier_release_clears_modifier_only() {
    let mut task = KeyTask {
        key: Some(KeyCode::C),
        sys_key: Some(SysKeyCode::Alt),
    };
    on_key_event(&mut task, KeyEvent::SysKeyUp(0x12));
    assert!(matches!(task.key, Some(KeyCode::C)));
    assert!(task.sys_key.is_none());
}

#[test]
fn base_press_under_held_alt_is_recovered() {
    // While Alt stays held, a second base key arrives as a system-key
    // event whose ordinal is no modifier; the held Alt is kept and the
    // ordinal is read as the base key.
    let mut task = KeyTask {
        key: None,
        sys_key: Some(SysKeyCode::LAlt),
    };
    on_key_event(&mut task, KeyEvent::SysKeyDown(0x44));
    assert!(matches!(task.key, Some(KeyCode::D)));
    assert!(matches!(task.sys_key, Some(SysKeyCode::LAlt)));
}

#[test]
fn unrecognized_system_press_without_alt_clears_modifier() {
    let mut task = KeyTask {
        key: Some(KeyCode::D),
        sys_key: Some(SysKeyCode::Shift),
    };
    on_key_event(&mut task, KeyEvent::SysKeyDown(0x44));
    assert!(matches!(task.key, Some(KeyCode::D)));
    assert!(task.sys_key.is_none());
}

#[test]
fn press_and_release_sequence() {
    let mut task = empty();
    on_key_event(&mut task, KeyEvent::SysKeyDown(0x11));
    on_key_event(&mut task, KeyEvent::KeyDown(0x46));
    assert_eq!(task.get_code(), (0x11 << 8) | 0x46);
    on_key_event(&mut task, KeyEvent::KeyUp(0x46));
    on_key_event(&mut task, KeyEvent::SysKeyUp(0x11));
    assert!(task.key.is_none());
    assert!(task.sys_key.is_none());
    assert_eq!(task.get_code(), 0);
}
