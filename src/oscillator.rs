//! The oscillator's state machine: one command at most, then one sample, per tick.
use vstd::prelude::*;

use crate::command::OscillatorCmd;
use crate::waveform::{level_at, period_of, period_from_frequency, square_level, stored_period};

verus! {

/// What an oscillator holds between two samples.
pub struct OscillatorState {
    /// Cumulative octave offset, applied at the next activation.
    pub transpose: i32,
    /// Samples per second.
    pub sample_rate: u32,
    /// Samples in one wave cycle; `0` while silent.
    pub period: u32,
    /// Position within the current cycle.
    pub phase: u32,
}

/// An Oscillator used for a single voice.
pub struct Oscillator {
    transpose: i32,
    sample_rate: u32,
    wavelength: u32,
    pos: u32,
}

impl View for Oscillator {
    type V = OscillatorState;

    closed spec fn view(&self) -> OscillatorState {
        OscillatorState {
            transpose: self.transpose,
            sample_rate: self.sample_rate,
            period: self.wavelength,
            phase: self.pos,
        }
    }
}

/// Octave offset after adding `delta` to `transpose`, wrapping around the
/// range of `i32`.
pub open spec fn add_octaves(transpose: i32, delta: i32) -> i32 {
    let sum = transpose as int + delta as int;
    if sum > i32::MAX as int {
        (sum - 0x1_0000_0000) as i32
    } else if sum < i32::MIN as int {
        (sum + 0x1_0000_0000) as i32
    } else {
        sum as i32
    }
}

/// State after `cmd` has been applied. `Activate` recomputes the period with
/// the current transpose; `Transpose` only changes the offset, which the
/// sounding note keeps until the next activation; no command moves the phase.
pub open spec fn apply_command(s: OscillatorState, cmd: OscillatorCmd) -> OscillatorState {
    match cmd {
        OscillatorCmd::Activate(frequency) => OscillatorState {
            period: stored_period(period_of(frequency, s.sample_rate, s.transpose)) as u32,
            ..s
        },
        OscillatorCmd::Deactivate => OscillatorState { period: 0, ..s },
        OscillatorCmd::Transpose(delta) => OscillatorState {
            transpose: add_octaves(s.transpose, delta),
            ..s
        },
        OscillatorCmd::Stop => s,
    }
}

/// State after the phase has moved one sample on: it wraps to `0` once it
/// would pass the period.
pub open spec fn advance(s: OscillatorState) -> OscillatorState {
    OscillatorState {
        phase: if s.phase as int + 1 > s.period as int {
            0
        } else {
            (s.phase + 1) as u32
        },
        ..s
    }
}

/// Level, before gain, of the sample emitted in state `s`.
pub open spec fn level(s: OscillatorState) -> int {
    level_at(s.phase as int, s.period as int)
}

/// State after one tick that does not stop: the polled command, if any, is
/// applied, then the phase advances.
pub open spec fn tick(s: OscillatorState, cmd: Option<OscillatorCmd>) -> OscillatorState {
    match cmd {
        Some(c) => advance(apply_command(s, c)),
        None => advance(s),
    }
}

/// State after a run of ticks, none of which stopped, that polled `cmds` in
/// turn.
pub open spec fn run(s: OscillatorState, cmds: Seq<Option<OscillatorCmd>>) -> OscillatorState
    decreases cmds.len(),
{
    if cmds.len() == 0 {
        s
    } else {
        tick(run(s, cmds.drop_last()), cmds.last())
    }
}

/// Whether a tick that polls `cmd` leaves a silent voice silent: anything
/// but `Stop` or an activation with a non-zero frequency.
pub open spec fn keeps_silence(cmd: Option<OscillatorCmd>) -> bool {
    match cmd {
        Some(OscillatorCmd::Activate(frequency)) => frequency == 0,
        Some(OscillatorCmd::Stop) => false,
        _ => true,
    }
}

/// Without transposition, activating `frequency` sets the period to twice
/// the floored quotient of the sample rate by the frequency (where that fits
/// a `u32`).
pub proof fn lemma_period_untransposed(s: OscillatorState, frequency: u32)
    requires
        frequency > 0,
        s.transpose == 0,
        (s.sample_rate / frequency) * 2 <= u32::MAX,
    ensures
        apply_command(s, OscillatorCmd::Activate(frequency)).period == (s.sample_rate / frequency)
            * 2,
{
}

/// Transposed down by `k` octave steps, activating `frequency` sets the
/// period to the untransposed one times `2 * k` (where that fits a `u32`).
pub proof fn lemma_period_transposed_down(s: OscillatorState, frequency: u32)
    requires
        frequency > 0,
        s.transpose < 0,
        (s.sample_rate / frequency) * 2 * (2 * -(s.transpose as int)) <= u32::MAX,
    ensures
        apply_command(s, OscillatorCmd::Activate(frequency)).period == (s.sample_rate / frequency)
            * 2 * (2 * -(s.transpose as int)),
{
}

/// Transposed up by `k` octave steps, activating `frequency` sets the period
/// to the untransposed one divided (floored) by `2 * k`, which may be `0`.
pub proof fn lemma_period_transposed_up(s: OscillatorState, frequency: u32)
    requires
        frequency > 0,
        s.transpose > 0,
    ensures
        apply_command(s, OscillatorCmd::Activate(frequency)).period == (s.sample_rate / frequency)
            * 2 / (2 * s.transpose as int),
{
    let base = (s.sample_rate / frequency) * 2;
    let steps = 2 * s.transpose as int;
    assert(base / steps <= base / 2) by (nonlinear_arith)
        requires
            base >= 0,
            steps >= 2,
    ;
}

/// After `Deactivate` or `Activate(0)`, every sample is `0` until a tick
/// polls an activation with a non-zero frequency.
pub proof fn lemma_silence_after_deactivate(s: OscillatorState, cmds: Seq<Option<OscillatorCmd>>)
    requires
        cmds.len() > 0,
        cmds[0] == Some(OscillatorCmd::Deactivate) || cmds[0] == Some(
            OscillatorCmd::Activate(0),
        ),
        forall|i: int| 1 <= i < cmds.len() ==> keeps_silence(#[trigger] cmds[i]),
    ensures
        run(s, cmds).period == 0,
        level(run(s, cmds)) == 0,
    decreases cmds.len(),
{
    let prefix = cmds.drop_last();
    if cmds.len() == 1 {
        assert(run(s, prefix) == s);
    } else {
        assert(prefix[0] == cmds[0]);
        assert forall|i: int| 1 <= i < prefix.len() implies keeps_silence(#[trigger] prefix[i]) by {
            assert(prefix[i] == cmds[i]);
        }
        lemma_silence_after_deactivate(s, prefix);
        assert(keeps_silence(cmds[cmds.len() - 1]));
    }
}

/// No command moves the phase.
pub proof fn lemma_commands_keep_phase(s: OscillatorState, cmd: OscillatorCmd)
    ensures
        apply_command(s, cmd).phase == s.phase,
{
}

/// Each tick moves the phase on by exactly one, or to `0` once it would pass
/// the period; the phase then lies within `[0, period]`.
pub proof fn lemma_phase_steps(s: OscillatorState, cmd: Option<OscillatorCmd>)
    ensures
        tick(s, cmd).phase == (if s.phase + 1 > tick(s, cmd).period {
            0
        } else {
            s.phase + 1
        }),
        tick(s, cmd).phase <= tick(s, cmd).period,
{
}

/// A sample's level before gain is `1` or `-1` while a note sounds, and `0`
/// while the voice is silent.
pub proof fn lemma_level_is_unit(s: OscillatorState)
    ensures
        s.period == 0 ==> level(s) == 0,
        s.period > 0 ==> level(s) == 1 || level(s) == -1,
{
}

/// Transposes accumulate: transposing by `delta` and then by `-delta` gives
/// back the state as it was, and a transpose leaves the period alone.
pub proof fn lemma_transpose_round_trip(s: OscillatorState, delta: i32, back: i32)
    requires
        delta + back == 0,
    ensures
        apply_command(s, OscillatorCmd::Transpose(delta)).period == s.period,
        apply_command(apply_command(s, OscillatorCmd::Transpose(delta)), OscillatorCmd::Transpose(back)) == s,
{
}

impl Oscillator {
    /// Creates a silent Oscillator for `sample_rate` samples per second.
    pub fn new(sample_rate: u32) -> (o: Oscillator)
        ensures
            o@ == (OscillatorState { transpose: 0, sample_rate, period: 0, phase: 0 }),
    {
        Oscillator { transpose: 0, sample_rate, wavelength: 0, pos: 0 }
    }

    /// Current octave offset.
    pub fn transpose(&self) -> (r: i32)
        ensures
            r == self@.transpose,
    {
        self.transpose
    }

    /// Samples per second.
    pub fn sample_rate(&self) -> (r: u32)
        ensures
            r == self@.sample_rate,
    {
        self.sample_rate
    }

    /// Samples in one wave cycle; `0` while silent.
    pub fn period(&self) -> (r: u32)
        ensures
            r == self@.period,
    {
        self.wavelength
    }

    /// Position within the current cycle.
    pub fn phase(&self) -> (r: u32)
        ensures
            r == self@.phase,
    {
        self.pos
    }

    fn set_wavelength(&mut self, freq: u32)
        ensures
            final(self)@ == apply_command(old(self)@, OscillatorCmd::Activate(freq)),
    {
        self.wavelength = period_from_frequency(freq, self.sample_rate, self.transpose);
    }

    /// Applies one command; returns `false` for `Stop`, which leaves the
    /// state as it was.
    pub fn apply(&mut self, cmd: OscillatorCmd) -> (running: bool)
        ensures
            running == !(cmd is Stop),
            final(self)@ == apply_command(old(self)@, cmd),
    {
        match cmd {
            OscillatorCmd::Activate(freq) => {
                self.set_wavelength(freq);
                true
            },
            OscillatorCmd::Deactivate => {
                self.wavelength = 0;
                true
            },
            OscillatorCmd::Transpose(delta) => {
                self.transpose = self.transpose.wrapping_add(delta);
                true
            },
            OscillatorCmd::Stop => false,
        }
    }

    /// Advances the phase by one sample and returns the level of the new
    /// position, disregarding gain: `1`, `-1`, or `0` while silent.
    pub fn next_abs(&mut self) -> (r: i8)
        ensures
            final(self)@ == advance(old(self)@),
            r as int == level(final(self)@),
    {
        if self.pos >= self.wavelength {
            self.pos = 0;
        } else {
            self.pos = self.pos + 1;
        }
        square_level(self.pos, self.wavelength)
    }

    /// One iteration of the oscillator's run loop, given the command polled
    /// for it, if any. `Stop` ends the run: no sample, state unchanged.
    /// Otherwise the command is applied and the next sample's level (before
    /// gain) is returned.
    pub fn step(&mut self, cmd: Option<OscillatorCmd>) -> (sample: Option<i8>)
        ensures
            cmd == Some(OscillatorCmd::Stop) ==> sample is None && final(self)@ == old(self)@,
            cmd != Some(OscillatorCmd::Stop) ==> {
                &&& final(self)@ == tick(old(self)@, cmd)
                &&& sample matches Some(l) && l as int == level(final(self)@)
            },
    {
        if let Some(c) = cmd {
            if !self.apply(c) {
                return None;
            }
        }
        Some(self.next_abs())
    }
}

} // verus!
