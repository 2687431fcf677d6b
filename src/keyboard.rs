//! From keyboard events to oscillator commands. Keys are identified by their
//! SDL key codes, as the window layer reports them.
use vstd::prelude::*;

use crate::command::OscillatorCmd;

verus! {

/// Key code of `A`, the key taken as last pressed before any press.
pub const KEY_A: u32 = 0x61;

/// Key code of the keypad's `+`, which transposes one octave step up.
pub const KEY_NUM_PAD_PLUS: u32 = 0x4000_0057;

/// Key code of the keypad's `-`, which transposes one octave step down.
pub const KEY_NUM_PAD_MINUS: u32 = 0x4000_0056;

/// Frequency in Hz of the note that key `code` plays, or `0` for a key that
/// plays none. The keys span F4 to C6 chromatically.
pub open spec fn key_frequency(code: u32) -> u32 {
    match code {
        0x61 => 349,  // A: F4
        0x77 => 370,  // W: F#4
        0x73 => 392,  // S: G4
        0x65 => 415,  // E: G#4
        0x64 => 440,  // D: A4
        0x72 => 466,  // R: A#4
        0x66 => 494,  // F: B4
        0x67 => 523,  // G: C5
        0x79 => 554,  // Y: C#5
        0x68 => 587,  // H: D5
        0x75 => 622,  // U: D#5
        0x6A => 659,  // J: E5
        0x6B => 698,  // K: F5
        0x6F => 740,  // O: F#5
        0x6C => 784,  // L: G5
        0x70 => 831,  // P: G#5
        0x3B => 880,  // Semicolon: A5
        0x5B => 932,  // LeftBracket: A#5
        0x00 => 988,  // Unknown: B5
        0x5C => 1046,  // Backslash: C6
        _ => 0,
    }
}

/// Frequency in Hz of the note that key `code` plays, or `0` for a key that
/// plays none.
pub fn match_keys(code: u32) -> (r: u32)
    ensures
        r == key_frequency(code),
{
    match code {
        0x61 => 349,
        0x77 => 370,
        0x73 => 392,
        0x65 => 415,
        0x64 => 440,
        0x72 => 466,
        0x66 => 494,
        0x67 => 523,
        0x79 => 554,
        0x68 => 587,
        0x75 => 622,
        0x6A => 659,
        0x6B => 698,
        0x6F => 740,
        0x6C => 784,
        0x70 => 831,
        0x3B => 880,
        0x5B => 932,
        0x00 => 988,
        0x5C => 1046,
        _ => 0,
    }
}

/// An event of the keyboard window.
#[derive(Clone, Copy, Debug, PartialEq, Eq, Structural)]
pub enum KeyEvent {
    /// The key with this code went down.
    Press(u32),
    /// The key with this code went up.
    Release(u32),
    /// The window closed.
    Close,
}

/// Commands that pressing key `code` sends, in order: a transpose for either
/// keypad sign key, then the note the key plays, if any.
pub open spec fn press_commands(code: u32) -> Seq<OscillatorCmd> {
    let up = if code == KEY_NUM_PAD_PLUS {
        seq![OscillatorCmd::Transpose(1)]
    } else {
        Seq::empty()
    };
    let down = if code == KEY_NUM_PAD_MINUS {
        seq![OscillatorCmd::Transpose(-1i32)]
    } else {
        Seq::empty()
    };
    let note = if key_frequency(code) != 0 {
        seq![OscillatorCmd::Activate(key_frequency(code))]
    } else {
        Seq::empty()
    };
    up + down + note
}

/// Commands that `event` sends when `last` is the key of the sounding note:
/// releasing that key silences the voice, releasing another does nothing,
/// and closing the window stops the oscillator.
pub open spec fn event_commands(last: u32, event: KeyEvent) -> Seq<OscillatorCmd> {
    match event {
        KeyEvent::Press(code) => press_commands(code),
        KeyEvent::Release(code) => if code == last {
            seq![OscillatorCmd::Deactivate]
        } else {
            Seq::empty()
        },
        KeyEvent::Close => seq![OscillatorCmd::Stop],
    }
}

/// Key of the last note after `event`: a press of a key that plays a note
/// takes its place.
pub open spec fn next_last(last: u32, event: KeyEvent) -> u32 {
    match event {
        KeyEvent::Press(code) => if key_frequency(code) != 0 {
            code
        } else {
            last
        },
        _ => last,
    }
}

/// Tracks which key's note is sounding, so that only its release silences
/// the voice.
pub struct Keyboard {
    last: u32,
}

impl View for Keyboard {
    type V = u32;

    /// Code of the key that last started a note.
    closed spec fn view(&self) -> u32 {
        self.last
    }
}

impl Keyboard {
    /// A keyboard on which `A` counts as the last key pressed.
    pub fn new() -> (k: Keyboard)
        ensures
            k@ == KEY_A,
    {
        Keyboard { last: KEY_A }
    }

    /// Code of the key that last started a note.
    pub fn last(&self) -> (r: u32)
        ensures
            r == self@,
    {
        self.last
    }

    /// Commands to send to the oscillator for `event`, in order.
    pub fn handle(&mut self, event: KeyEvent) -> (cmds: Vec<OscillatorCmd>)
        ensures
            cmds@ == event_commands(old(self)@, event),
            final(self)@ == next_last(old(self)@, event),
    {
        let mut cmds: Vec<OscillatorCmd> = Vec::new();
        match event {
            KeyEvent::Press(code) => {
                if code == KEY_NUM_PAD_PLUS {
                    cmds.push(OscillatorCmd::Transpose(1));
                }
                if code == KEY_NUM_PAD_MINUS {
                    cmds.push(OscillatorCmd::Transpose(-1));
                }
                let freq = match_keys(code);
                if freq != 0 {
                    cmds.push(OscillatorCmd::Activate(freq));
                    self.last = code;
                }
            },
            KeyEvent::Release(code) => {
                if code == self.last {
                    cmds.push(OscillatorCmd::Deactivate);
                }
            },
            KeyEvent::Close => {
                cmds.push(OscillatorCmd::Stop);
            },
        }
        proof {
            assert(cmds@ =~= event_commands(old(self)@, event));
        }
        cmds
    }
}

} // verus!
