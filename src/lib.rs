//! A monophonic square-wave voice: the pitch arithmetic, the oscillator's
//! per-sample state machine, and the mapping from keyboard events to
//! oscillator commands.
pub mod command;
pub mod keyboard;
pub mod oscillator;
pub mod waveform;
