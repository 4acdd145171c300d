use soundbar::key_task::{KeyCode, KeyTask, SysKeyCode};
use soundbar::persist::{keytask_snapshot, restore};
use soundbar::registry::SoundRegistry;
use soundbar::soundbite::{AudioBuffer, SoundbiteData};

fn record(name: &str, volume: u32, speed: u32) -> SoundbiteData {
    SoundbiteData {
        name: name.to_string(),
        buffer: vec![1, 2, 3],
        channels: 1,
        sample_rate: 22050,
        volume,
        speed,
    }
}

fn encode(key: KeyCode, sys_key: Option<SysKeyCode>) -> u32 {
    KeyTask::new(key, sys_key).get_code()
}

#[test]
fn restore_keeps_records_in_line_order() {
    let registry = restore(
        vec![record("a", 100, 100), record("b", 50, 150)],
        Vec::new(),
    );
    assert_eq!(registry.get_soundbites(), vec!["a", "b"]);
    let info = registry.get_soundbite(&"b".to_string()).unwrap();
    assert_eq!(info.volume, 50);
    assert_eq!(info.speed, 150);
}

#[test]
fn restore_skips_duplicate_names_keeping_the_first() {
    let registry = restore(
        vec![
            record("a", 100, 100),
            record("a", 50, 50),
            record("b", 60, 60),
        ],
        Vec::new(),
    );
    assert_eq!(registry.get_soundbites(), vec!["a", "b"]);
    let info = registry.get_soundbite(&"a".to_string()).unwrap();
    assert_eq!(info.volume, 100);
}

#[test]
fn restore_skips_out_of_range_parameters() {
    let registry = restore(
        vec![
            record("quiet", 0, 100),
            record("loud", 250, 100),
            record("slow", 100, 0),
            record("fine", 100, 100),
        ],
        Vec::new(),
    );
    assert_eq!(registry.get_soundbites(), vec!["fine"]);
}

#[test]
fn restore_rebinds_by_line_position() {
    let x = encode(KeyCode::X, None);
    let y = encode(KeyCode::Y, Some(SysKeyCode::Ctrl));
    let registry = restore(
        vec![record("a", 100, 100), record("b", 100, 100)],
        vec![(x, 0), (y, 1)],
    );
    let id_a = registry.get_soundbite(&"a".to_string()).unwrap();
    assert_eq!(id_a.keycode, x);
    let id_b = registry.get_soundbite(&"b".to_string()).unwrap();
    assert_eq!(id_b.keycode, y);
}

#[test]
fn restore_skips_malformed_bindings() {
    let x = encode(KeyCode::X, None);
    let y = encode(KeyCode::Y, None);
    let registry = restore(
        vec![record("a", 100, 100)],
        vec![
            (0, 0),  // the reserved code
            (x, 5),  // position past the accepted clips
            (y, 0),  // accepted
        ],
    );
    assert_eq!(registry.lookup_by_code(x), None);
    let info = registry.get_soundbite(&"a".to_string()).unwrap();
    assert_eq!(info.keycode, y);
}

#[test]
fn restore_keeps_last_binding_of_duplicated_code() {
    // As with a map store, the later line overwrites the earlier one.
    let x = encode(KeyCode::X, None);
    let registry = restore(
        vec![record("a", 100, 100), record("b", 100, 100)],
        vec![(x, 0), (x, 1)],
    );
    assert_eq!(registry.get_soundbite(&"a".to_string()).unwrap().keycode, 0);
    assert_eq!(registry.get_soundbite(&"b".to_string()).unwrap().keycode, x);
}

#[test]
fn restore_keeps_last_binding_of_duplicated_clip() {
    // Two codes cannot share one clip; the later line wins it.
    let y = encode(KeyCode::Y, None);
    let z = encode(KeyCode::Z, None);
    let registry = restore(
        vec![record("a", 100, 100)],
        vec![(y, 0), (z, 0)],
    );
    assert_eq!(registry.lookup_by_code(y), None);
    let info = registry.get_soundbite(&"a".to_string()).unwrap();
    assert_eq!(info.keycode, z);
}

#[test]
fn restore_reassigns_identities_past_skipped_lines() {
    let x = encode(KeyCode::X, None);
    let registry = restore(
        vec![
            record("a", 100, 100),
            record("a", 100, 100),
            record("b", 100, 100),
        ],
        vec![(x, 1)],
    );
    // Line 1 was skipped as a duplicate, so position 1 names "b".
    let info = registry.get_soundbite(&"b".to_string()).unwrap();
    assert_eq!(info.keycode, x);
}

#[test]
fn snapshot_flattens_bindings_to_positions() {
    let mut registry = SoundRegistry::new();
    registry
        .add_soundbite(SoundbiteData::new(
            "a".to_string(),
            AudioBuffer {
                samples: vec![1],
                channels: 1,
                sample_rate: 8000,
            },
            100,
            100,
        ))
        .unwrap();
    registry
        .add_soundbite(SoundbiteData::new(
            "b".to_string(),
            AudioBuffer {
                samples: vec![2],
                channels: 1,
                sample_rate: 8000,
            },
            100,
            100,
        ))
        .unwrap();
    let x = encode(KeyCode::X, None);
    let y = encode(KeyCode::Y, None);
    registry.set_keytask_code(&"b".to_string(), y).unwrap();
    registry.set_keytask_code(&"a".to_string(), x).unwrap();
    let mut snapshot = keytask_snapshot(&registry);
    snapshot.sort();
    assert_eq!(snapshot, vec![(x, 0), (y, 1)]);
}

#[test]
fn snapshot_then_restore_round_trips_the_bindings() {
    let mut registry = SoundRegistry::new();
    for name in ["a", "b", "c"] {
        registry.add_soundbite(record(name, 100, 100)).unwrap();
    }
    let x = encode(KeyCode::X, None);
    let z = encode(KeyCode::Z, Some(SysKeyCode::Shift));
    registry.set_keytask_code(&"a".to_string(), x).unwrap();
    registry.set_keytask_code(&"c".to_string(), z).unwrap();
    registry.remove_soundbite(&"b".to_string()).unwrap();

    let bindings = keytask_snapshot(&registry);
    let records = vec![record("a", 100, 100), record("c", 100, 100)];
    let rebuilt = restore(records, bindings);

    assert_eq!(rebuilt.get_soundbites(), vec!["a", "c"]);
    assert_eq!(
        rebuilt.get_soundbite(&"a".to_string()).unwrap().keycode,
        registry.get_soundbite(&"a".to_string()).unwrap().keycode
    );
    assert_eq!(
        rebuilt.get_soundbite(&"c".to_string()).unwrap().keycode,
        registry.get_soundbite(&"c".to_string()).unwrap().keycode
    );
}
