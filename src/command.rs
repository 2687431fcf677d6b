//! Commands that steer an oscillator.
use vstd::prelude::*;

verus! {

/// A command to control an Oscillator.
#[derive(Clone, Copy, Debug, PartialEq, Eq, Structural)]
pub enum OscillatorCmd {
    /// Activate / change Oscillator frequency.
    Activate(u32),
    /// Deactivate Oscillator.
    Deactivate,
    /// Transpose Oscillator Up or Down by octaves.
    Transpose(i32),
    /// Stop cleanly stops the Oscillator. A stopped Oscillator needs to be re-started in order to
    /// execute new commands.
    Stop,
}

} // verus!
