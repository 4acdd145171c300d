//! State transitions of the system-wide keyboard observer.
//!
//! The observer watches every key press and release, whichever window has
//! focus, and republishes the currently held combination into a shared
//! slot that the polling loop reads. The observer itself — installing the
//! OS hook, its callback thread, the shared slot's lock — belongs to the
//! application layer; what is modelled here is the transition the callback
//! applies to the observed [`KeyTask`] for each raw event.
//!
//! One transition is a best-effort heuristic, not a hard guarantee: while
//! a base key is held under Alt, further presses arrive as system-key
//! events whose ordinal is not a modifier. If the last observed modifier
//! is a left or right Alt, such an event is read as a base-key press under
//! the still-held Alt; otherwise the modifier is cleared.

use vstd::prelude::*;

use crate::key_task::{KeyCode, KeyTask, SysKeyCode};

verus! {

/// A raw keyboard event as the OS-level observer reports it: a press or a
/// release of an ordinary or of a system ("modifier") key, carrying the
/// raw virtual-key ordinal.
#[derive(Debug, Clone, Copy, PartialEq, Eq, Structural)]
pub enum KeyEvent {
    KeyDown(u32),
    KeyUp(u32),
    SysKeyDown(u32),
    SysKeyUp(u32),
}

/// The combination observed after `event` hits the combination `task`.
///
/// - An ordinary press of a recognized base key stores it, leaving the
///   modifier as previously observed; one of a recognized modifier (some
///   systems report modifiers this way) stores it into the modifier field
///   only, leaving the base key as previously observed; an unrecognized
///   press clears both fields.
/// - An ordinary release clears the base-key field only.
/// - A system-key press of a recognized modifier stores it; of anything
///   else, under a held Alt, it is read as a base-key press (the heuristic
///   above), and otherwise clears the modifier field.
/// - A system-key release clears the modifier field only.
pub open spec fn spec_on_key_event(task: KeyTask, event: KeyEvent) -> KeyTask {
    match event {
        KeyEvent::KeyDown(vk) => match KeyCode::spec_from(vk) {
            Some(k) => KeyTask { key: Some(k), ..task },
            None => match SysKeyCode::spec_from(vk) {
                Some(s) => KeyTask { sys_key: Some(s), ..task },
                None => KeyTask { key: None, sys_key: None },
            },
        },
        KeyEvent::KeyUp(_) => KeyTask { key: None, ..task },
        KeyEvent::SysKeyDown(vk) => match SysKeyCode::spec_from(vk) {
            Some(s) => KeyTask { sys_key: Some(s), ..task },
            None => {
                if task.sys_key == Some(SysKeyCode::LAlt) || task.sys_key == Some(
                    SysKeyCode::RAlt,
                ) {
                    KeyTask { key: KeyCode::spec_from(vk), ..task }
                } else {
                    KeyTask { sys_key: None, ..task }
                }
            },
        },
        KeyEvent::SysKeyUp(_) => KeyTask { sys_key: None, ..task },
    }
}

/// Applies one raw event to the observed combination.
pub fn on_key_event(task: &mut KeyTask, event: KeyEvent)
    ensures
        *final(task) == spec_on_key_event(*old(task), event),
{
    match event {
        KeyEvent::KeyDown(vk) => {
            match KeyCode::try_from(vk) {
                Some(k) => {
                    task.key = Some(k);
                },
                None => {
                    match SysKeyCode::try_from(vk) {
                        Some(s) => {
                            task.sys_key = Some(s);
                        },
                        None => {
                            task.key = None;
                            task.sys_key = None;
                        },
                    }
                },
            }
        },
        KeyEvent::KeyUp(_) => {
            task.key = None;
        },
        KeyEvent::SysKeyDown(vk) => {
            match SysKeyCode::try_from(vk) {
                Some(s) => {
                    task.sys_key = Some(s);
                },
                None => {
                    let alt_held = match task.sys_key {
                        Some(SysKeyCode::LAlt) => true,
                        Some(SysKeyCode::RAlt) => true,
                        _ => false,
                    };
                    if alt_held {
                        task.key = KeyCode::try_from(vk);
                    } else {
                        task.sys_key = None;
                    }
                },
            }
        },
        KeyEvent::SysKeyUp(_) => {
            task.sys_key = None;
        },
    }
}

} // verus!
