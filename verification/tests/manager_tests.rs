use soundbar::key_task::{KeyCode, KeyTask, SysKeyCode};
use soundbar::manager::{apply_command, poll_key, Ack, AckPayload, Command};
use soundbar::registry::SoundRegistry;
use soundbar::soundbite::AudioBuffer;
use soundbar::utils::{NewSoundbiteError, SoundManagerError};

fn audio() -> AudioBuffer {
    AudioBuffer {
        samples: vec![100, -100, 50, -50],
        channels: 2,
        sample_rate: 48000,
    }
}

fn encode(key: KeyCode, sys_key: Option<SysKeyCode>) -> u32 {
    KeyTask::new(key, sys_key).get_code()
}

fn add(name: &str, code: u32) -> Command {
    Command::AddSoundbite {
        name: name.to_string(),
        audio: Some(audio()),
        volume: 100,
        speed: 100,
        code,
    }
}

#[test]
fn add_then_redundant_relink_is_accepted() {
    let mut registry = SoundRegistry::new();
    let code = encode(KeyCode::A, None);
    let ack = apply_command(&mut registry, add("siren", code));
    let id = match ack {
        Ok(AckPayload::Added { id, name }) => {
            assert_eq!(name, "siren");
            id
        }
        other => panic!("expected Added, got {:?}", other),
    };
    assert_eq!(registry.lookup_by_code(code), Some(id));
    // Linking the same code to the same soundbite again is redundant but
    // must not error: it is that soundbite's existing binding.
    let ack = apply_command(
        &mut registry,
        Command::LinkKeyCode {
            name: "siren".to_string(),
            code,
        },
    );
    assert!(matches!(ack, Ok(AckPayload::Done)));
    assert_eq!(registry.lookup_by_code(code), Some(id));
}

#[test]
fn one_poll_tick_plays_once_and_clears_the_key() {
    let mut registry = SoundRegistry::new();
    let code = encode(KeyCode::A, None);
    let ack = apply_command(&mut registry, add("siren", code));
    let id = match ack {
        Ok(AckPayload::Added { id, .. }) => id,
        other => panic!("expected Added, got {:?}", other),
    };

    // The hook published (base = A, no modifier).
    let mut live = KeyTask {
        key: Some(KeyCode::A),
        sys_key: None,
    };
    let played = poll_key(&registry, &mut live);
    assert_eq!(played, Some(id));
    assert!(live.key.is_none());

    // A second idle tick with no new press must not replay it.
    let played_again = poll_key(&registry, &mut live);
    assert_eq!(played_again, None);
}

#[test]
fn poll_tick_on_unbound_code_leaves_state_alone() {
    let registry = SoundRegistry::new();
    let mut live = KeyTask {
        key: Some(KeyCode::B),
        sys_key: Some(SysKeyCode::Ctrl),
    };
    let played = poll_key(&registry, &mut live);
    assert_eq!(played, None);
    // The chord may still be under composition: nothing is cleared.
    assert!(matches!(live.key, Some(KeyCode::B)));
    assert!(matches!(live.sys_key, Some(SysKeyCode::Ctrl)));
}

#[test]
fn add_with_undecodable_audio_fails() {
    let mut registry = SoundRegistry::new();
    let ack = apply_command(
        &mut registry,
        Command::AddSoundbite {
            name: "broken".to_string(),
            audio: None,
            volume: 100,
            speed: 100,
            code: 0,
        },
    );
    assert!(matches!(
        ack,
        Err(SoundManagerError::NewSoundbiteError(
            NewSoundbiteError::FailOnCreate
        ))
    ));
    assert!(registry.get_soundbites().is_empty());
}

#[test]
fn add_with_used_name_fails() {
    let mut registry = SoundRegistry::new();
    apply_command(&mut registry, add("siren", 0)).unwrap();
    let ack = apply_command(&mut registry, add("siren", 0));
    assert!(matches!(
        ack,
        Err(SoundManagerError::NewSoundbiteError(
            NewSoundbiteError::NameUsed(ref n)
        )) if n == "siren"
    ));
    assert_eq!(registry.get_soundbites(), vec!["siren"]);
}

#[test]
fn add_with_out_of_range_parameters_fails() {
    let mut registry = SoundRegistry::new();
    let ack = apply_command(
        &mut registry,
        Command::AddSoundbite {
            name: "loud".to_string(),
            audio: Some(audio()),
            volume: 250,
            speed: 100,
            code: 0,
        },
    );
    assert!(matches!(ack, Err(SoundManagerError::InvalidVolumeValue)));
    let ack = apply_command(
        &mut registry,
        Command::AddSoundbite {
            name: "fast".to_string(),
            audio: Some(audio()),
            volume: 100,
            speed: 0,
            code: 0,
        },
    );
    assert!(matches!(ack, Err(SoundManagerError::InvalidSpeedValue)));
    assert!(registry.get_soundbites().is_empty());
}

#[test]
fn add_with_taken_code_fails_atomically() {
    let mut registry = SoundRegistry::new();
    let code = encode(KeyCode::C, None);
    apply_command(&mut registry, add("first", code)).unwrap();
    let ack = apply_command(&mut registry, add("second", code));
    assert!(matches!(ack, Err(SoundManagerError::KeyTaskUsed(c)) if c == code));
    // The rejected command mutated nothing: no half-inserted soundbite.
    assert_eq!(registry.get_soundbites(), vec!["first"]);
}

#[test]
fn commands_cover_the_registry_operations() {
    let mut registry = SoundRegistry::new();
    apply_command(&mut registry, add("kick", 0)).unwrap();

    let ack = apply_command(
        &mut registry,
        Command::SetVolume {
            name: "kick".to_string(),
            volume: 55,
        },
    );
    assert!(matches!(ack, Ok(AckPayload::Done)));

    let ack = apply_command(
        &mut registry,
        Command::SetSpeed {
            name: "kick".to_string(),
            speed: 150,
        },
    );
    assert!(matches!(ack, Ok(AckPayload::Done)));

    let ack = apply_command(
        &mut registry,
        Command::GetSoundbite {
            name: "kick".to_string(),
        },
    );
    match ack {
        Ok(AckPayload::Info(info)) => {
            assert_eq!(info.name, "kick");
            assert_eq!(info.volume, 55);
            assert_eq!(info.speed, 150);
            assert_eq!(info.keycode, 0);
        }
        other => panic!("expected Info, got {:?}", other),
    }

    let ack = apply_command(
        &mut registry,
        Command::SetName {
            name: "kick".to_string(),
            new_name: "boom".to_string(),
        },
    );
    assert!(matches!(ack, Ok(AckPayload::Done)));

    let ack = apply_command(&mut registry, Command::ListSoundbites);
    match ack {
        Ok(AckPayload::Names(names)) => assert_eq!(names, vec!["boom"]),
        other => panic!("expected Names, got {:?}", other),
    }

    let code = encode(KeyCode::B, Some(SysKeyCode::Shift));
    let ack = apply_command(
        &mut registry,
        Command::LinkKeyCode {
            name: "boom".to_string(),
            code,
        },
    );
    assert!(matches!(ack, Ok(AckPayload::Done)));

    let ack = apply_command(
        &mut registry,
        Command::UnlinkKeyCode {
            name: "boom".to_string(),
        },
    );
    assert!(matches!(ack, Ok(AckPayload::Done)));
    assert_eq!(registry.lookup_by_code(code), None);

    let ack = apply_command(
        &mut registry,
        Command::RemoveSoundbite {
            name: "boom".to_string(),
        },
    );
    assert!(matches!(ack, Ok(AckPayload::Done)));
    assert!(registry.get_soundbites().is_empty());
}

#[test]
fn failed_commands_answer_with_typed_errors() {
    let mut registry = SoundRegistry::new();
    let ghost_name = "ghost".to_string();

    let ack = apply_command(
        &mut registry,
        Command::RemoveSoundbite {
            name: ghost_name.clone(),
        },
    );
    assert!(matches!(ack, Err(SoundManagerError::SoundbiteNotFound(ref n)) if n == "ghost"));

    let ack = apply_command(
        &mut registry,
        Command::GetSoundbite {
            name: ghost_name.clone(),
        },
    );
    assert!(matches!(ack, Err(SoundManagerError::SoundbiteNotFound(ref n)) if n == "ghost"));

    let ack = apply_command(
        &mut registry,
        Command::SetVolume {
            name: ghost_name.clone(),
            volume: 300,
        },
    );
    assert!(matches!(ack, Err(SoundManagerError::InvalidVolumeValue)));

    // Unlinking an absent soundbite is a documented no-op, never an error.
    let ack = apply_command(&mut registry, Command::UnlinkKeyCode { name: ghost_name });
    assert!(matches!(ack, Ok(AckPayload::Done)));
}
