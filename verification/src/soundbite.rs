//! The soundbite data model: decoded audio plus playback parameters.
//!
//! Decoding a submitted byte buffer into PCM samples is the audio
//! backend's work and happens in the application layer; the registry and
//! the manager loop only ever see the decoded form held here.

use vstd::prelude::*;

verus! {

/// The smallest valid volume or speed percentage.
pub const MIN_PERCENT: u32 = 1;

/// The largest valid volume or speed percentage.
pub const MAX_PERCENT: u32 = 200;

/// Unity volume or speed.
pub const UNITY_PERCENT: u32 = 100;

/// A volume or speed percentage lies in `(0, 200]`.
pub open spec fn valid_percent(v: u32) -> bool {
    MIN_PERCENT <= v <= MAX_PERCENT
}

/// Decoded PCM audio: 16-bit signed samples, interleaved over `channels`
/// channels at `sample_rate` frames per second.
#[derive(Debug, Clone)]
pub struct AudioBuffer {
    pub samples: Vec<i16>,
    pub channels: u16,
    pub sample_rate: u32,
}

/// A named clip: decoded audio and its playback parameters. Volume and
/// speed are percentages with `100` as unity, kept in `(0, 200]`.
#[derive(Debug, Clone)]
pub struct SoundbiteData {
    pub name: String,
    pub buffer: Vec<i16>,
    pub channels: u16,
    pub sample_rate: u32,
    pub volume: u32,
    pub speed: u32,
}

impl SoundbiteData {
    /// Both playback parameters lie in their valid range.
    pub open spec fn wf(self) -> bool {
        valid_percent(self.volume) && valid_percent(self.speed)
    }

    pub fn new(name: String, audio: AudioBuffer, volume: u32, speed: u32) -> (r: SoundbiteData)
        requires
            valid_percent(volume),
            valid_percent(speed),
        ensures
            r.wf(),
            r.name == name,
            r.buffer == audio.samples,
            r.channels == audio.channels,
            r.sample_rate == audio.sample_rate,
            r.volume == volume,
            r.speed == speed,
    {
        SoundbiteData {
            name,
            buffer: audio.samples,
            channels: audio.channels,
            sample_rate: audio.sample_rate,
            volume,
            speed,
        }
    }
}

/// A soundbite as the registry holds it: the clip and the stable identity
/// assigned at insertion and never reused. The audio sink that plays the
/// clip is owned by the application layer and keyed by `id`.
#[derive(Debug, Clone)]
pub struct Soundbite {
    pub id: u64,
    pub data: SoundbiteData,
}

impl Soundbite {
    /// Sets the volume taken by the next play of this clip.
    pub fn set_volume(&mut self, volume: u32)
        requires
            valid_percent(volume),
        ensures
            *final(self) == (Soundbite {
                data: SoundbiteData { volume, ..old(self).data },
                ..*old(self)
            }),
    {
        self.data.volume = volume;
    }

    /// Sets the speed taken by the next play of this clip.
    pub fn set_speed(&mut self, speed: u32)
        requires
            valid_percent(speed),
        ensures
            *final(self) == (Soundbite {
                data: SoundbiteData { speed, ..old(self).data },
                ..*old(self)
            }),
    {
        self.data.speed = speed;
    }
}

} // verus!
