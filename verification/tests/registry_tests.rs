use soundbar::key_task::{KeyCode, KeyTask, SysKeyCode};
use soundbar::registry::SoundRegistry;
use soundbar::soundbite::{AudioBuffer, SoundbiteData};
use soundbar::utils::{NewSoundbiteError, SoundManagerError};

fn clip(name: &str) -> SoundbiteData {
    SoundbiteData::new(
        name.to_string(),
        AudioBuffer {
            samples: vec![0, 64, -64, 0],
            channels: 1,
            sample_rate: 44100,
        },
        100,
        100,
    )
}

fn encode(key: KeyCode, sys_key: Option<SysKeyCode>) -> u32 {
    KeyTask::new(key, sys_key).get_code()
}

#[test]
fn insert_assigns_monotonic_identities() {
    let mut registry = SoundRegistry::new();
    let a = registry.add_soundbite(clip("clap")).unwrap();
    let b = registry.add_soundbite(clip("snare")).unwrap();
    assert_eq!(a, 0);
    assert_eq!(b, 1);
    assert_eq!(registry.get_soundbites(), vec!["clap", "snare"]);
}

#[test]
fn insert_duplicate_name_fails_and_keeps_one() {
    let mut registry = SoundRegistry::new();
    registry.add_soundbite(clip("clap")).unwrap();
    let second = registry.add_soundbite(clip("clap"));
    assert!(matches!(
        second,
        Err(SoundManagerError::NewSoundbiteError(
            NewSoundbiteError::NameUsed(ref n)
        )) if n == "clap"
    ));
    let names = registry.get_soundbites();
    assert_eq!(names.iter().filter(|n| *n == "clap").count(), 1);
    assert_eq!(names, vec!["clap"]);
}

#[test]
fn link_conflicting_code_fails_and_keeps_first_binding() {
    let mut registry = SoundRegistry::new();
    let id_a = registry.add_soundbite(clip("a")).unwrap();
    registry.add_soundbite(clip("b")).unwrap();
    let x = encode(KeyCode::X, None);
    registry.set_keytask_code(&"a".to_string(), x).unwrap();
    let second = registry.set_keytask_code(&"b".to_string(), x);
    assert!(matches!(second, Err(SoundManagerError::KeyTaskUsed(c)) if c == x));
    assert_eq!(registry.lookup_by_code(x), Some(id_a));
}

#[test]
fn relink_same_soundbite_is_idempotent() {
    let mut registry = SoundRegistry::new();
    let id = registry.add_soundbite(clip("a")).unwrap();
    let x = encode(KeyCode::X, None);
    registry.set_keytask_code(&"a".to_string(), x).unwrap();
    registry.set_keytask_code(&"a".to_string(), x).unwrap();
    assert_eq!(registry.lookup_by_code(x), Some(id));
}

#[test]
fn relink_moves_the_soundbites_single_binding() {
    let mut registry = SoundRegistry::new();
    let id = registry.add_soundbite(clip("a")).unwrap();
    let x = encode(KeyCode::X, None);
    let y = encode(KeyCode::Y, Some(SysKeyCode::Ctrl));
    registry.set_keytask_code(&"a".to_string(), x).unwrap();
    registry.set_keytask_code(&"a".to_string(), y).unwrap();
    assert_eq!(registry.lookup_by_code(x), None);
    assert_eq!(registry.lookup_by_code(y), Some(id));
}

#[test]
fn link_rejects_reserved_zero_code() {
    let mut registry = SoundRegistry::new();
    registry.add_soundbite(clip("a")).unwrap();
    let r = registry.set_keytask_code(&"a".to_string(), 0);
    assert!(matches!(r, Err(SoundManagerError::InvalidKeyCode)));
    // The validation error comes first, even when the name is unknown too.
    let r = registry.set_keytask_code(&"ghost".to_string(), 0);
    assert!(matches!(r, Err(SoundManagerError::InvalidKeyCode)));
}

#[test]
fn link_unknown_name_fails() {
    let mut registry = SoundRegistry::new();
    let r = registry.set_keytask_code(&"ghost".to_string(), 5);
    assert!(matches!(r, Err(SoundManagerError::SoundbiteNotFound(ref n)) if n == "ghost"));
}

#[test]
fn remove_drops_binding_with_soundbite() {
    let mut registry = SoundRegistry::new();
    registry.add_soundbite(clip("a")).unwrap();
    let x = encode(KeyCode::A, None);
    registry.set_keytask_code(&"a".to_string(), x).unwrap();
    registry.remove_soundbite(&"a".to_string()).unwrap();
    assert_eq!(registry.lookup_by_code(x), None);
    assert!(registry.get_soundbites().is_empty());
    // The code is free again for the next soundbite.
    registry.add_soundbite(clip("b")).unwrap();
    registry.set_keytask_code(&"b".to_string(), x).unwrap();
}

#[test]
fn remove_unknown_name_fails() {
    let mut registry = SoundRegistry::new();
    let r = registry.remove_soundbite(&"ghost".to_string());
    assert!(matches!(r, Err(SoundManagerError::SoundbiteNotFound(ref n)) if n == "ghost"));
}

#[test]
fn removed_identity_is_never_reused() {
    let mut registry = SoundRegistry::new();
    let a = registry.add_soundbite(clip("a")).unwrap();
    registry.remove_soundbite(&"a".to_string()).unwrap();
    let b = registry.add_soundbite(clip("b")).unwrap();
    assert_ne!(a, b);
}

#[test]
fn set_volume_rejects_out_of_range_values() {
    let mut registry = SoundRegistry::new();
    registry.add_soundbite(clip("a")).unwrap();
    let name = "a".to_string();
    assert!(matches!(
        registry.set_volume(&name, 0),
        Err(SoundManagerError::InvalidVolumeValue)
    ));
    assert!(matches!(
        registry.set_volume(&name, 250),
        Err(SoundManagerError::InvalidVolumeValue)
    ));
    registry.set_volume(&name, 100).unwrap();
    let info = registry.get_soundbite(&name).unwrap();
    assert_eq!(info.volume, 100);
}

#[test]
fn set_speed_rejects_out_of_range_values() {
    let mut registry = SoundRegistry::new();
    registry.add_soundbite(clip("a")).unwrap();
    let name = "a".to_string();
    assert!(matches!(
        registry.set_speed(&name, 0),
        Err(SoundManagerError::InvalidSpeedValue)
    ));
    assert!(matches!(
        registry.set_speed(&name, 201),
        Err(SoundManagerError::InvalidSpeedValue)
    ));
    registry.set_speed(&name, 200).unwrap();
    let info = registry.get_soundbite(&name).unwrap();
    assert_eq!(info.speed, 200);
}

#[test]
fn set_volume_unknown_name_fails() {
    let mut registry = SoundRegistry::new();
    let r = registry.set_volume(&"ghost".to_string(), 100);
    assert!(matches!(r, Err(SoundManagerError::SoundbiteNotFound(ref n)) if n == "ghost"));
}

#[test]
fn rename_updates_listing_and_lookup() {
    let mut registry = SoundRegistry::new();
    registry.add_soundbite(clip("old")).unwrap();
    registry
        .set_name(&"old".to_string(), "new".to_string())
        .unwrap();
    assert_eq!(registry.get_soundbites(), vec!["new"]);
    assert!(registry.get_soundbite(&"old".to_string()).is_err());
    assert!(registry.get_soundbite(&"new".to_string()).is_ok());
}

#[test]
fn rename_to_taken_name_fails() {
    let mut registry = SoundRegistry::new();
    registry.add_soundbite(clip("a")).unwrap();
    registry.add_soundbite(clip("b")).unwrap();
    let r = registry.set_name(&"a".to_string(), "b".to_string());
    assert!(matches!(r, Err(SoundManagerError::SoundbiteAlreadyExists(ref n)) if n == "b"));
    // Renaming to the soundbite's own current name is refused the same way.
    let r = registry.set_name(&"a".to_string(), "a".to_string());
    assert!(matches!(r, Err(SoundManagerError::SoundbiteAlreadyExists(ref n)) if n == "a"));
}

#[test]
fn unlink_is_a_no_op_without_binding() {
    let mut registry = SoundRegistry::new();
    registry.add_soundbite(clip("a")).unwrap();
    registry.remove_keytask_code(&"a".to_string()).unwrap();
    registry.remove_keytask_code(&"ghost".to_string()).unwrap();
}

#[test]
fn unlink_frees_the_code() {
    let mut registry = SoundRegistry::new();
    registry.add_soundbite(clip("a")).unwrap();
    let x = encode(KeyCode::Q, Some(SysKeyCode::Shift));
    registry.set_keytask_code(&"a".to_string(), x).unwrap();
    registry.remove_keytask_code(&"a".to_string()).unwrap();
    assert_eq!(registry.lookup_by_code(x), None);
    let info = registry.get_soundbite(&"a".to_string()).unwrap();
    assert_eq!(info.keycode, 0);
}

#[test]
fn get_soundbite_reports_binding_and_parameters() {
    let mut registry = SoundRegistry::new();
    registry.add_soundbite(clip("a")).unwrap();
    let name = "a".to_string();
    let info = registry.get_soundbite(&name).unwrap();
    assert_eq!(info.name, "a");
    assert_eq!(info.volume, 100);
    assert_eq!(info.speed, 100);
    assert_eq!(info.keycode, 0);
    let x = encode(KeyCode::A, Some(SysKeyCode::Alt));
    registry.set_keytask_code(&name, x).unwrap();
    let info = registry.get_soundbite(&name).unwrap();
    assert_eq!(info.keycode, x);
}

#[test]
fn soundbite_by_id_finds_the_clip() {
    let mut registry = SoundRegistry::new();
    let id = registry.add_soundbite(clip("a")).unwrap();
    let clip_ref = registry.soundbite_by_id(id).unwrap();
    assert_eq!(clip_ref.data.name, "a");
    assert_eq!(clip_ref.data.channels, 1);
    assert_eq!(clip_ref.data.sample_rate, 44100);
    assert!(registry.soundbite_by_id(id + 1).is_none());
}
