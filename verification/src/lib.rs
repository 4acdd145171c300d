//! Core of a soundboard: a registry of named audio clips ("soundbites"),
//! a packed key-code scheme that ties a (base key, modifier key) pair to a
//! clip, the state transitions of the global keyboard observer, and the
//! polling loop that fuses live key state with mutation commands.
//!
//! Everything here is pure logic over plain values; audio output, the OS
//! keyboard hook, channels and file handling live in the surrounding
//! application layer.

pub mod key_hook;
pub mod key_task;
pub mod manager;
pub mod persist;
pub mod registry;
pub mod soundbite;
pub mod utils;

pub use key_task::KeyTaskCode;
