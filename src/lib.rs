//! A soundboard's remote-trigger pipeline: decoding of trigger datagrams,
//! the listener's lifecycle, a bounded trigger channel, the list of output
//! devices, and the application state that resolves triggers and button
//! presses against the sound catalog into playback requests.

pub mod channel;
pub mod config;
pub mod devices;
pub mod listener;
pub mod pad;
pub mod protocol;
pub mod sound_button;
