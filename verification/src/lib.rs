//! A command-driven audio playback engine.
//!
//! The engine accepts decoded audio samples, models the real-time output
//! callback that streams them, and allows live control of playback state
//! (start, stop, volume) through commands.  Sample amplitudes are held in a
//! fixed-point representation so that every step of the playback logic is
//! exact integer arithmetic; the thin device and decoder adapters around the
//! library convert to and from the hardware's floating-point frames.

pub mod buffer;
pub mod decode;
pub mod player;

pub use buffer::AudioData;
pub use player::AudioPlayer;
pub use player::PlayerCommand;
