//! Error taxonomy and the per-soundbite summary handed back to callers.

use vstd::prelude::*;

use crate::key_task::KeyTaskCode;

verus! {

/// What a caller learns about one soundbite: its name, its playback
/// parameters (percentages, `100` = unity) and the key code bound to it
/// (`0` when unbound).
#[derive(Debug, Clone)]
pub struct SoundbiteInfo {
    pub name: String,
    pub volume: u32,
    pub speed: u32,
    pub keycode: KeyTaskCode,
}

/// Failures while creating a soundbite.
#[derive(Debug, Clone)]
pub enum NewSoundbiteError {
    /// The submitted audio payload was not a recognized container/codec,
    /// or no further identity could be allocated.
    FailOnCreate,
    /// The chosen name already names another soundbite.
    NameUsed(String),
    /// The request could not be handed to the manager loop.
    UnableToSendSoundbite(String),
    /// The stored clip could not be given an audio sink.
    UnableToCreateFromData(String),
}

/// Failures of registry operations, surfaced one per command in the
/// acknowledgment; none of them is fatal to the manager loop.
#[derive(Debug, Clone)]
pub enum SoundManagerError {
    NewSoundbiteError(NewSoundbiteError),
    /// No soundbite carries the given name.
    SoundbiteNotFound(String),
    /// The key code is already bound to a different soundbite.
    KeyTaskUsed(KeyTaskCode),
    /// The name chosen for an insertion or a rename is already taken.
    SoundbiteAlreadyExists(String),
    /// The reserved code `0` cannot be bound.
    InvalidKeyCode,
    /// A volume outside `(0, 200]`.
    InvalidVolumeValue,
    /// A speed outside `(0, 200]`.
    InvalidSpeedValue,
    /// Shutdown could not be carried out.
    CloseAppError,
}

} // verus!
