//! Source-selection switch: three latched output lines with feedback,
//! committed together by one shared clock pulse.
//!
//! Each line is a D flip-flop with an active-low data input: after a clock
//! pulse the line's feedback reads the negation of the level held on its
//! data pin. A logical `FlipFlopState` maps to a fixed pattern on the three
//! lines, and `update` pulses the clock only when the observed feedback
//! pattern disagrees with that target, so redundant clock edges never occur.

use vstd::prelude::*;

verus! {

/// Logical intent for the shared rail's source.
#[derive(Clone, Copy, Debug, PartialEq, Eq, Structural)]
pub enum FlipFlopState {
    Off,
    On,
    Bat1,
    Bat2,
    AuxPwr,
}

/// Selector for one physical line of the switch.
#[derive(Clone, Copy, Debug, PartialEq, Eq, Structural)]
pub enum FlipFlopInput {
    Bat1,
    Bat2,
    AuxPwr,
}

/// One latched line: the level held on the data pin and the level the
/// feedback pin reads back.
#[derive(Clone, Copy, Debug, PartialEq, Eq, Structural)]
pub struct RawFlipFlop {
    pub d_level: bool,
    pub feedback: bool,
}

/// The three-line source switch with its shared clock line.
#[derive(Clone, Copy, Debug, PartialEq, Eq, Structural)]
pub struct DFlipFlop {
    pub state: FlipFlopState,
    pub bat_1: RawFlipFlop,
    pub bat_2: RawFlipFlop,
    pub aux_pwr: RawFlipFlop,
    pub clk: bool,
}

/// Fixed mapping from logical state to the target levels of the three
/// lines (enable-Bat1, enable-Bat2, enable-AuxPwr).
pub open spec fn map_state_spec(state: FlipFlopState) -> (bool, bool, bool) {
    match state {
        FlipFlopState::Off => (false, false, false),
        FlipFlopState::On => (true, true, true),
        FlipFlopState::Bat1 => (true, false, false),
        FlipFlopState::Bat2 => (false, true, false),
        FlipFlopState::AuxPwr => (false, false, true),
    }
}

/// The feedback pattern currently observed on the three lines.
pub open spec fn observed(ff: DFlipFlop) -> (bool, bool, bool) {
    (ff.bat_1.feedback, ff.bat_2.feedback, ff.aux_pwr.feedback)
}

/// The feedback level of one selected line.
pub open spec fn input_feedback(ff: DFlipFlop, input: FlipFlopInput) -> bool {
    match input {
        FlipFlopInput::Bat1 => ff.bat_1.feedback,
        FlipFlopInput::Bat2 => ff.bat_2.feedback,
        FlipFlopInput::AuxPwr => ff.aux_pwr.feedback,
    }
}

/// Whether `update` must pulse the clock: the target pattern for the
/// current state differs from the observed feedback pattern.
pub open spec fn update_pulses(ff: DFlipFlop) -> bool {
    map_state_spec(ff.state) != observed(ff)
}

/// The switch after one `update`: unchanged when feedback already matches
/// the target, otherwise the data pins hold the inverted target levels and
/// the pulse has latched the target onto the feedback lines.
pub open spec fn after_update(ff: DFlipFlop) -> DFlipFlop {
    let (bat_1_on, bat_2_on, aux_pwr_on) = map_state_spec(ff.state);
    if update_pulses(ff) {
        DFlipFlop {
            state: ff.state,
            bat_1: RawFlipFlop { d_level: !bat_1_on, feedback: bat_1_on },
            bat_2: RawFlipFlop { d_level: !bat_2_on, feedback: bat_2_on },
            aux_pwr: RawFlipFlop { d_level: !aux_pwr_on, feedback: aux_pwr_on },
            clk: false,
        }
    } else {
        ff
    }
}

/// Whether `set` to `state` pulses the clock.
pub open spec fn set_pulses(ff: DFlipFlop, state: FlipFlopState) -> bool {
    update_pulses(DFlipFlop { state, ..ff })
}

/// The switch after `set` to `state`.
pub open spec fn after_set(ff: DFlipFlop, state: FlipFlopState) -> DFlipFlop {
    after_update(DFlipFlop { state, ..ff })
}

impl DFlipFlop {
    /// A freshly constructed switch: intent `Off`, data pins driven low,
    /// clock low; the feedback lines read whatever the hardware held.
    pub fn new(fb_bat_1: bool, fb_bat_2: bool, fb_aux_pwr: bool) -> (r: Self)
        ensures
            r == (DFlipFlop {
                state: FlipFlopState::Off,
                bat_1: RawFlipFlop { d_level: false, feedback: fb_bat_1 },
                bat_2: RawFlipFlop { d_level: false, feedback: fb_bat_2 },
                aux_pwr: RawFlipFlop { d_level: false, feedback: fb_aux_pwr },
                clk: false,
            }),
    {
        DFlipFlop {
            state: FlipFlopState::Off,
            bat_1: RawFlipFlop { d_level: false, feedback: fb_bat_1 },
            bat_2: RawFlipFlop { d_level: false, feedback: fb_bat_2 },
            aux_pwr: RawFlipFlop { d_level: false, feedback: fb_aux_pwr },
            clk: false,
        }
    }

    /// The observed feedback level of one line: ground truth, independent
    /// of the cached intent.
    pub fn is_enabled(&self, input: FlipFlopInput) -> (r: bool)
        ensures
            r == input_feedback(*self, input),
    {
        match input {
            FlipFlopInput::Bat1 => self.bat_1.feedback,
            FlipFlopInput::Bat2 => self.bat_2.feedback,
            FlipFlopInput::AuxPwr => self.aux_pwr.feedback,
        }
    }

    /// The last commanded logical intent.
    pub fn get_state(&self) -> (r: FlipFlopState)
        ensures
            r == self.state,
    {
        self.state
    }

    /// One clock pulse: raises the shared clock, which latches the
    /// negation of each data level onto its feedback line, then returns
    /// the clock low. The minimum high hold time belongs to the driver
    /// that moves these levels onto hardware.
    pub fn clock(&mut self)
        ensures
            *final(self) == (DFlipFlop {
                bat_1: RawFlipFlop {
                    d_level: old(self).bat_1.d_level,
                    feedback: !old(self).bat_1.d_level,
                },
                bat_2: RawFlipFlop {
                    d_level: old(self).bat_2.d_level,
                    feedback: !old(self).bat_2.d_level,
                },
                aux_pwr: RawFlipFlop {
                    d_level: old(self).aux_pwr.d_level,
                    feedback: !old(self).aux_pwr.d_level,
                },
                clk: false,
                ..*old(self)
            }),
    {
        self.clk = true;
        self.bat_1.feedback = !self.bat_1.d_level;
        self.bat_2.feedback = !self.bat_2.d_level;
        self.aux_pwr.feedback = !self.aux_pwr.d_level;
        self.clk = false;
    }

    /// The target level pattern for the current state.
    pub fn map_state(&self) -> (r: (bool, bool, bool))
        ensures
            r == map_state_spec(self.state),
    {
        match self.state {
            FlipFlopState::Off => (false, false, false),
            FlipFlopState::On => (true, true, true),
            FlipFlopState::Bat1 => (true, false, false),
            FlipFlopState::Bat2 => (false, true, false),
            FlipFlopState::AuxPwr => (false, false, true),
        }
    }

    /// Converge feedback to the current state's target pattern. Pulses
    /// the clock exactly when the observed pattern differs from the
    /// target; afterwards the feedback always equals the target.
    pub fn update(&mut self) -> (pulsed: bool)
        ensures
            pulsed == update_pulses(*old(self)),
            *final(self) == after_update(*old(self)),
            observed(*final(self)) == map_state_spec(old(self).state),
    {
        let (bat_1_on, bat_2_on, aux_pwr_on) = self.map_state();
        if bat_1_on != self.is_enabled(FlipFlopInput::Bat1)
            || bat_2_on != self.is_enabled(FlipFlopInput::Bat2)
            || aux_pwr_on != self.is_enabled(FlipFlopInput::AuxPwr) {
            self.bat_1.d_level = !bat_1_on;
            self.bat_2.d_level = !bat_2_on;
            self.aux_pwr.d_level = !aux_pwr_on;
            self.clock();
            true
        } else {
            false
        }
    }

    /// Store `state` as the current intent, then converge the lines.
    pub fn set(&mut self, state: FlipFlopState) -> (pulsed: bool)
        ensures
            pulsed == set_pulses(*old(self), state),
            *final(self) == after_set(*old(self), state),
            observed(*final(self)) == map_state_spec(state),
    {
        self.state = state;
        self.update()
    }
}

/// The mapping table is exhaustive and exact over all five states.
pub proof fn lemma_map_state_table()
    ensures
        map_state_spec(FlipFlopState::Off) == (false, false, false),
        map_state_spec(FlipFlopState::On) == (true, true, true),
        map_state_spec(FlipFlopState::Bat1) == (true, false, false),
        map_state_spec(FlipFlopState::Bat2) == (false, true, false),
        map_state_spec(FlipFlopState::AuxPwr) == (false, false, true),
{
}

/// After any `set`, the feedback pattern equals the target pattern of the
/// new state and the stored intent is that state.
pub proof fn lemma_set_converges(ff: DFlipFlop, state: FlipFlopState)
    ensures
        after_set(ff, state).state == state,
        observed(after_set(ff, state)) == map_state_spec(state),
{
}

/// Setting the same state twice never pulses the clock the second time:
/// the first `set` has already converged the feedback to the target.
pub proof fn lemma_set_twice_no_pulse(ff: DFlipFlop, state: FlipFlopState)
    ensures
        !set_pulses(after_set(ff, state), state),
{
}

} // verus!
