//! The sound manager's decisions: what one poll tick does.
//!
//! The manager loop polls two independent sources on a fixed cadence.
//! The playback branch reads the live key state the keyboard observer
//! publishes and decides whether a clip is to be played; the mutation
//! branch drains the inbound command channel and applies each command to
//! the registry, answering it with exactly one acknowledgment. Both
//! decisions are made here over plain state; the loop itself — channels,
//! locks, sleeping, the audio sinks — is the application layer's.
//!
//! The base-key field of the live key state is cleared only on a
//! successful dispatch, so one press triggers at most one playback and an
//! almost-complete chord is not silently eaten; on a miss the state is
//! left as it is.

use vstd::prelude::*;

use crate::key_task::{KeyTask, KeyTaskCode};
use crate::registry::{
    spec_linked, spec_removed, spec_renamed, spec_speed_set, spec_unlinked, spec_volume_set,
    SoundRegistry,
};
use crate::soundbite::{valid_percent, AudioBuffer, SoundbiteData};
use crate::utils::{NewSoundbiteError, SoundManagerError, SoundbiteInfo};

verus! {

/// One request submitted over the command channel. Decoding submitted
/// audio bytes is the audio backend's work at the channel's edge: a
/// request to add a soundbite carries the decoded form, or `None` when
/// the bytes were no recognized audio container.
#[derive(Debug)]
pub enum Command {
    /// Add a clip under `name` with the given parameters; a nonzero
    /// `code` also binds that key code to it.
    AddSoundbite { name: String, audio: Option<AudioBuffer>, volume: u32, speed: u32, code: KeyTaskCode },
    RemoveSoundbite { name: String },
    SetName { name: String, new_name: String },
    SetVolume { name: String, volume: u32 },
    SetSpeed { name: String, speed: u32 },
    LinkKeyCode { name: String, code: KeyTaskCode },
    UnlinkKeyCode { name: String },
    GetSoundbite { name: String },
    ListSoundbites,
}

/// The success payload of an acknowledgment.
#[derive(Debug)]
pub enum AckPayload {
    /// The identity and name assigned to a fresh soundbite.
    Added { id: u64, name: String },
    /// Plain success of a mutation.
    Done,
    /// The summary of one soundbite.
    Info(SoundbiteInfo),
    /// The names of all soundbites, in allocation order.
    Names(Vec<String>),
}

/// The acknowledgment to one command: exactly one per command.
pub type Ack = Result<AckPayload, SoundManagerError>;

/// Everything an `AddSoundbite` request needs in order to go through:
/// a fresh name, decodable audio, both parameters in range, a code that
/// is zero or unbound, and an identity left to allocate.
pub open spec fn add_accepted(
    registry: SoundRegistry,
    name: Seq<char>,
    audio: Option<AudioBuffer>,
    volume: u32,
    speed: u32,
    code: KeyTaskCode,
) -> bool {
    &&& !registry.has_name(name)
    &&& audio is Some
    &&& valid_percent(volume)
    &&& valid_percent(speed)
    &&& code == 0 || !registry.code_bound(code)
    &&& registry.next_id < u64::MAX
}

/// Applies one command to the registry and yields its acknowledgment.
///
/// A failed command leaves the registry untouched: no command is ever
/// applied in part. No failure is fatal; every error is returned as a
/// value for the acknowledgment.
pub fn apply_command(registry: &mut SoundRegistry, command: Command) -> (r: Ack)
    requires
        old(registry).wf(),
    ensures
        final(registry).wf(),
        r is Err ==> *final(registry) == *old(registry),
        command matches Command::AddSoundbite { name, audio, volume, speed, code } ==> {
            &&& r is Ok <==> add_accepted(*old(registry), name@, audio, volume, speed, code)
            &&& (r matches Ok(p) ==> p matches AckPayload::Added { id, name: n } && id == old(
                registry,
            ).next_id && n@ == name@)
            &&& r is Ok ==> ({
                let data = SoundbiteData {
                    name,
                    buffer: audio.unwrap().samples,
                    channels: audio.unwrap().channels,
                    sample_rate: audio.unwrap().sample_rate,
                    volume,
                    speed,
                };
                &&& final(registry).soundbites@ == old(registry).soundbites@.push(
                    crate::soundbite::Soundbite { id: old(registry).next_id, data },
                )
                &&& final(registry).next_id == old(registry).next_id + 1
                &&& final(registry).keytasks@ == (if code != 0 {
                    old(registry).keytasks@.push((code, old(registry).next_id))
                } else {
                    old(registry).keytasks@
                })
                &&& code != 0 ==> final(registry).spec_lookup(code) == Some(old(registry).next_id)
            })
            &&& (old(registry).has_name(name@) ==> (r matches Err(
                SoundManagerError::NewSoundbiteError(NewSoundbiteError::NameUsed(n)),
            ) && n@ == name@))
            &&& (!old(registry).has_name(name@) && audio is None ==> r matches Err(
                SoundManagerError::NewSoundbiteError(NewSoundbiteError::FailOnCreate),
            ))
            &&& (!old(registry).has_name(name@) && audio is Some && !valid_percent(volume)
                ==> r matches Err(SoundManagerError::InvalidVolumeValue))
            &&& (!old(registry).has_name(name@) && audio is Some && valid_percent(volume)
                && !valid_percent(speed) ==> r matches Err(SoundManagerError::InvalidSpeedValue))
            &&& (!old(registry).has_name(name@) && audio is Some && valid_percent(volume)
                && valid_percent(speed) && code != 0 && old(registry).code_bound(code) ==> (
            r matches Err(SoundManagerError::KeyTaskUsed(c)) && c == code))
            &&& (!old(registry).has_name(name@) && audio is Some && valid_percent(volume)
                && valid_percent(speed) && (code == 0 || !old(registry).code_bound(code)) && old(
                registry,
            ).next_id == u64::MAX ==> r matches Err(
                SoundManagerError::NewSoundbiteError(NewSoundbiteError::FailOnCreate),
            ))
        },
        command matches Command::RemoveSoundbite { name } ==> {
            &&& r is Ok <==> old(registry).has_name(name@)
            &&& (r matches Ok(p) ==> p is Done)
            &&& (r matches Err(e) ==> e matches SoundManagerError::SoundbiteNotFound(n) && n@
                == name@)
            &&& r is Ok ==> spec_removed(*old(registry), *final(registry), name@)
            &&& r is Ok ==> !final(registry).has_name(name@)
        },
        command matches Command::SetName { name, new_name } ==> {
            &&& r is Ok <==> !old(registry).has_name(new_name@) && old(registry).has_name(name@)
            &&& (r matches Ok(p) ==> p is Done)
            &&& r is Ok ==> spec_renamed(*old(registry), *final(registry), name@, new_name)
            &&& (old(registry).has_name(new_name@) ==> (r matches Err(
                SoundManagerError::SoundbiteAlreadyExists(n),
            ) && n@ == new_name@))
            &&& (!old(registry).has_name(new_name@) && !old(registry).has_name(name@) ==> (
            r matches Err(SoundManagerError::SoundbiteNotFound(n)) && n@ == name@))
        },
        command matches Command::SetVolume { name, volume } ==> {
            &&& r is Ok <==> valid_percent(volume) && old(registry).has_name(name@)
            &&& (r matches Ok(p) ==> p is Done)
            &&& r is Ok ==> spec_volume_set(*old(registry), *final(registry), name@, volume)
            &&& (!valid_percent(volume) ==> r matches Err(SoundManagerError::InvalidVolumeValue))
            &&& (valid_percent(volume) && !old(registry).has_name(name@) ==> (r matches Err(
                SoundManagerError::SoundbiteNotFound(n),
            ) && n@ == name@))
        },
        command matches Command::SetSpeed { name, speed } ==> {
            &&& r is Ok <==> valid_percent(speed) && old(registry).has_name(name@)
            &&& (r matches Ok(p) ==> p is Done)
            &&& r is Ok ==> spec_speed_set(*old(registry), *final(registry), name@, speed)
            &&& (!valid_percent(speed) ==> r matches Err(SoundManagerError::InvalidSpeedValue))
            &&& (valid_percent(speed) && !old(registry).has_name(name@) ==> (r matches Err(
                SoundManagerError::SoundbiteNotFound(n),
            ) && n@ == name@))
        },
        command matches Command::LinkKeyCode { name, code } ==> {
            &&& r is Ok <==> (old(registry).has_name(name@) && code != 0 && (old(
                registry,
            ).spec_lookup(code) is None || old(registry).spec_lookup(code) == Some(
                old(registry).id_of_name(name@),
            )))
            &&& (r matches Ok(p) ==> p is Done)
            &&& r is Ok ==> spec_linked(*old(registry), *final(registry), name@, code)
            &&& r is Ok ==> final(registry).spec_lookup(code) == Some(
                old(registry).id_of_name(name@),
            )
            &&& (code == 0 ==> r matches Err(SoundManagerError::InvalidKeyCode))
            &&& (code != 0 && !old(registry).has_name(name@) ==> (r matches Err(
                SoundManagerError::SoundbiteNotFound(n),
            ) && n@ == name@))
            &&& (old(registry).has_name(name@) && code != 0 && (old(registry).spec_lookup(code)
                matches Some(b) && b != old(registry).id_of_name(name@)) ==> (r matches Err(
                SoundManagerError::KeyTaskUsed(c),
            ) && c == code))
        },
        command matches Command::UnlinkKeyCode { name } ==> {
            &&& r matches Ok(p) && p is Done
            &&& spec_unlinked(*old(registry), *final(registry), name@)
            &&& old(registry).has_name(name@) ==> !final(registry).id_has_binding(
                old(registry).id_of_name(name@),
            )
        },
        command matches Command::GetSoundbite { name } ==> {
            &&& *final(registry) == *old(registry)
            &&& r is Ok <==> old(registry).has_name(name@)
            &&& (r matches Ok(p) ==> p matches AckPayload::Info(info) && ({
                let s = old(registry).soundbites@[old(registry).index_of_name(name@)];
                &&& info.name@ == name@
                &&& info.volume == s.data.volume
                &&& info.speed == s.data.speed
                &&& info.keycode == old(registry).code_of_id(s.id)
            }))
            &&& (r matches Err(e) ==> e matches SoundManagerError::SoundbiteNotFound(n) && n@
                == name@)
        },
        command matches Command::ListSoundbites ==> {
            &&& *final(registry) == *old(registry)
            &&& r matches Ok(p) && p matches AckPayload::Names(names) && names@.len() == old(
                registry,
            ).soundbites@.len() && (forall|i: int|
                0 <= i < names@.len() ==> names@[i]@ == old(registry).soundbites@[i].data.name@)
        },
{
    match command {
        Command::AddSoundbite { name, audio, volume, speed, code } => {
            if registry.contains_name(&name) {
                return Err(
                    SoundManagerError::NewSoundbiteError(NewSoundbiteError::NameUsed(name)),
                );
            }
            let audio = match audio {
                Some(a) => a,
                None => {
                    return Err(
                        SoundManagerError::NewSoundbiteError(NewSoundbiteError::FailOnCreate),
                    );
                },
            };
            if volume < crate::soundbite::MIN_PERCENT || volume > crate::soundbite::MAX_PERCENT {
                return Err(SoundManagerError::InvalidVolumeValue);
            }
            if speed < crate::soundbite::MIN_PERCENT || speed > crate::soundbite::MAX_PERCENT {
                return Err(SoundManagerError::InvalidSpeedValue);
            }
            if code != 0 {
                match registry.lookup_by_code(code) {
                    Some(_) => {
                        return Err(SoundManagerError::KeyTaskUsed(code));
                    },
                    None => {},
                }
            }
            let ack_name = name.clone();
            let data = SoundbiteData::new(name, audio, volume, speed);
            let ghost pre = *registry;
            match registry.add_soundbite(data) {
                Ok(id) => {
                    if code != 0 {
                        proof {
                            let last = pre.soundbites@.len() as int;
                            assert(registry.soundbites@[last].data.name@ == ack_name@);
                            assert(registry.has_name(ack_name@));
                            let w = registry.index_of_name(ack_name@);
                            assert(registry.soundbites@[w].data.name@ == ack_name@);
                            assert(w == last);
                            assert(registry.soundbites@[last].id == id);
                            assert(registry.id_of_name(ack_name@) == id);
                            assert(!registry.code_bound(code)) by {
                                if registry.code_bound(code) {
                                    let j = registry.index_of_code(code);
                                    assert(registry.keytasks@[j].0 == code);
                                    assert(pre.keytasks@[j].0 == code);
                                    assert(pre.code_bound(code));
                                }
                            }
                            assert(!registry.id_has_binding(id)) by {
                                if registry.id_has_binding(id) {
                                    let j = choose|j: int|
                                        0 <= j < registry.keytasks@.len()
                                            && registry.keytasks@[j].1 == id;
                                    assert(pre.keytasks@[j].1 == id);
                                    assert(pre.has_id(id));
                                    let w2 = pre.index_of_id(id);
                                    assert(pre.soundbites@[w2].id == id);
                                    assert(pre.soundbites@[w2].id < pre.next_id);
                                }
                            }
                        }
                        let ghost mid = *registry;
                        let linked = registry.set_keytask_code(&ack_name, code);
                        proof {
                            assert(linked is Ok);
                            assert(registry.keytasks@ == mid.keytasks@.push((code, id)));
                        }
                    }
                    Ok(AckPayload::Added { id, name: ack_name })
                },
                Err(e) => Err(e),
            }
        },
        Command::RemoveSoundbite { name } => {
            match registry.remove_soundbite(&name) {
                Ok(_) => Ok(AckPayload::Done),
                Err(e) => Err(e),
            }
        },
        Command::SetName { name, new_name } => {
            match registry.set_name(&name, new_name) {
                Ok(_) => Ok(AckPayload::Done),
                Err(e) => Err(e),
            }
        },
        Command::SetVolume { name, volume } => {
            match registry.set_volume(&name, volume) {
                Ok(_) => Ok(AckPayload::Done),
                Err(e) => Err(e),
            }
        },
        Command::SetSpeed { name, speed } => {
            match registry.set_speed(&name, speed) {
                Ok(_) => Ok(AckPayload::Done),
                Err(e) => Err(e),
            }
        },
        Command::LinkKeyCode { name, code } => {
            match registry.set_keytask_code(&name, code) {
                Ok(_) => Ok(AckPayload::Done),
                Err(e) => Err(e),
            }
        },
        Command::UnlinkKeyCode { name } => {
            match registry.remove_keytask_code(&name) {
                Ok(_) => Ok(AckPayload::Done),
                Err(e) => Err(e),
            }
        },
        Command::GetSoundbite { name } => {
            match registry.get_soundbite(&name) {
                Ok(info) => Ok(AckPayload::Info(info)),
                Err(e) => Err(e),
            }
        },
        Command::ListSoundbites => Ok(AckPayload::Names(registry.get_soundbites())),
    }
}

/// The playback branch of one poll tick: reads the live key state and
/// decides which soundbite, if any, is to be played.
///
/// When a base key is present and its packed code is bound, the bound
/// identity is returned and the base-key field is cleared, so one press
/// triggers at most one playback. On a miss — or when no base key is
/// present — nothing is played and the state is left as it is, so a chord
/// still being composed is not eaten early.
pub fn poll_key(registry: &SoundRegistry, key_task: &mut KeyTask) -> (r: Option<u64>)
    requires
        registry.wf(),
    ensures
        ({
            let code = old(key_task).spec_code();
            if old(key_task).key is Some && registry.spec_lookup(code) is Some {
                &&& r == registry.spec_lookup(code)
                &&& final(key_task).key is None
                &&& final(key_task).sys_key == old(key_task).sys_key
            } else {
                &&& r is None
                &&& *final(key_task) == *old(key_task)
            }
        }),
{
    match key_task.key {
        Some(_) => {
            let code = key_task.get_code();
            match registry.lookup_by_code(code) {
                Some(id) => {
                    key_task.key = None;
                    Some(id)
                },
                None => None,
            }
        },
        None => None,
    }
}

} // verus!
