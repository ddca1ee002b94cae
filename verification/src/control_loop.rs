//! The control loop: the single point of mutation for the source switch
//! and the sink gate. It services exactly one event per iteration — a
//! command from the inbound channel or the elapse of the telemetry
//! interval — and this module holds every decision that an iteration
//! makes.
//!
//! The suspensions themselves (receiving a command, waiting out the
//! telemetry interval or a revert delay, sending a snapshot) are the
//! caller's: `step` consumes an already-resolved event and returns what
//! must happen next. A command carrying a duration yields a
//! `PendingRevert`; the driver waits out the delay, during which no other
//! event is serviced, and then hands the action to `apply_revert`. That
//! hold is deliberately non-preemptible, as on the target hardware.

use vstd::prelude::*;

use crate::d_flip_flop::DFlipFlop;
use crate::d_flip_flop::FlipFlopInput;
use crate::d_flip_flop::FlipFlopState;
use crate::d_flip_flop::after_set;
use crate::d_flip_flop::set_pulses;
use crate::sink_ctrl::Sink;
use crate::sink_ctrl::SinkCtrl;
use crate::sink_ctrl::sink_enabled;
use crate::sink_ctrl::with_sink;
use crate::snapshot::StateSnapshot;

verus! {

/// Telemetry cadence: a snapshot is emitted when this many milliseconds
/// pass without a command arriving.
pub const CONTROL_LOOP_TM_INTERVAL: u64 = 500;

/// A command addressed to this subsystem. The optional duration, in
/// seconds, asks for an automatic revert to the prior state after that
/// long a hold.
#[derive(Clone, Copy, Debug, PartialEq, Eq, Structural)]
pub enum EPSCommand {
    SetSource(FlipFlopState, Option<u32>),
    EnableSink(Sink, Option<u32>),
    DisableSink(Sink, Option<u32>),
}

/// A command from the supervisory bus: either for this subsystem or for
/// another one, in which case it is silently dropped.
#[derive(Clone, Copy, Debug, PartialEq, Eq, Structural)]
pub enum Telecommand {
    EPS(EPSCommand),
    Other,
}

/// The single action a timed command schedules for after its hold window.
#[derive(Clone, Copy, Debug, PartialEq, Eq, Structural)]
pub enum RevertAction {
    SetSource(FlipFlopState),
    EnableSink(Sink),
    DisableSink(Sink),
}

/// A revert owed after a hold of `delay_secs` seconds.
#[derive(Clone, Copy, Debug, PartialEq, Eq, Structural)]
pub struct PendingRevert {
    pub delay_secs: u32,
    pub action: RevertAction,
}

/// What servicing one command did to the hardware: how many output-pin
/// levels were driven, how many latch clock pulses were issued, and the
/// revert still owed, if the command carried a duration.
#[derive(Clone, Copy, Debug, PartialEq, Eq, Structural)]
pub struct CmdEffect {
    pub pin_writes: u32,
    pub clock_pulses: u32,
    pub revert: Option<PendingRevert>,
}

/// One resolved iteration event: a command arrived first, or the
/// telemetry interval elapsed first.
#[derive(Clone, Copy, Debug, PartialEq, Eq, Structural)]
pub enum Event {
    Cmd(Telecommand),
    Tick,
}

/// What one iteration asks of the driver: service a pending revert after
/// its delay, or send the packed snapshot on the telemetry channel.
#[derive(Clone, Copy, Debug, PartialEq, Eq, Structural)]
pub enum StepOutput {
    Handled(CmdEffect),
    Telemetry(StateSnapshot),
}

/// The orchestrator: owns the source switch and the sink gate.
#[derive(Clone, Copy, Debug, PartialEq, Eq, Structural)]
pub struct ControlLoop {
    pub source_flip_flop: DFlipFlop,
    pub sink_ctrl: SinkCtrl,
}

/// An effect that touched no pin and owes no revert.
pub open spec fn no_effect() -> CmdEffect {
    CmdEffect { pin_writes: 0, clock_pulses: 0, revert: None }
}

/// The loop's state after servicing one command.
pub open spec fn handle_cmd_next(cl: ControlLoop, tc: Telecommand) -> ControlLoop {
    match tc {
        Telecommand::EPS(cmd) => match cmd {
            EPSCommand::SetSource(state, _time) => ControlLoop {
                source_flip_flop: after_set(cl.source_flip_flop, state),
                ..cl
            },
            EPSCommand::EnableSink(sink, _time) => if sink_enabled(cl.sink_ctrl, sink) {
                cl
            } else {
                ControlLoop { sink_ctrl: with_sink(cl.sink_ctrl, sink, true), ..cl }
            },
            EPSCommand::DisableSink(sink, _time) => if !sink_enabled(cl.sink_ctrl, sink) {
                cl
            } else {
                ControlLoop { sink_ctrl: with_sink(cl.sink_ctrl, sink, false), ..cl }
            },
        },
        Telecommand::Other => cl,
    }
}

/// The revert a duration schedules, always to the state that existed
/// immediately before the command was applied.
pub open spec fn revert_of(cl: ControlLoop, cmd: EPSCommand) -> Option<PendingRevert> {
    match cmd {
        EPSCommand::SetSource(_state, time) => match time {
            Some(t) => Some(PendingRevert {
                delay_secs: t,
                action: RevertAction::SetSource(cl.source_flip_flop.state),
            }),
            None => None,
        },
        EPSCommand::EnableSink(sink, time) => match time {
            Some(t) => Some(PendingRevert { delay_secs: t, action: RevertAction::DisableSink(sink) }),
            None => None,
        },
        EPSCommand::DisableSink(sink, time) => match time {
            Some(t) => Some(PendingRevert { delay_secs: t, action: RevertAction::EnableSink(sink) }),
            None => None,
        },
    }
}

/// The hardware effect of servicing one command.
pub open spec fn handle_cmd_effect(cl: ControlLoop, tc: Telecommand) -> CmdEffect {
    match tc {
        Telecommand::EPS(cmd) => match cmd {
            EPSCommand::SetSource(state, _time) => if set_pulses(cl.source_flip_flop, state) {
                CmdEffect { pin_writes: 3, clock_pulses: 1, revert: revert_of(cl, cmd) }
            } else {
                CmdEffect { pin_writes: 0, clock_pulses: 0, revert: revert_of(cl, cmd) }
            },
            EPSCommand::EnableSink(sink, _time) => if sink_enabled(cl.sink_ctrl, sink) {
                no_effect()
            } else {
                CmdEffect { pin_writes: 1, clock_pulses: 0, revert: revert_of(cl, cmd) }
            },
            EPSCommand::DisableSink(sink, _time) => if !sink_enabled(cl.sink_ctrl, sink) {
                no_effect()
            } else {
                CmdEffect { pin_writes: 1, clock_pulses: 0, revert: revert_of(cl, cmd) }
            },
        },
        Telecommand::Other => no_effect(),
    }
}

/// The loop's state after a revert action is applied.
pub open spec fn revert_next(cl: ControlLoop, action: RevertAction) -> ControlLoop {
    match action {
        RevertAction::SetSource(state) => ControlLoop {
            source_flip_flop: after_set(cl.source_flip_flop, state),
            ..cl
        },
        RevertAction::EnableSink(sink) => ControlLoop {
            sink_ctrl: with_sink(cl.sink_ctrl, sink, true),
            ..cl
        },
        RevertAction::DisableSink(sink) => ControlLoop {
            sink_ctrl: with_sink(cl.sink_ctrl, sink, false),
            ..cl
        },
    }
}

/// The snapshot a tick emits: the three observed feedback levels and the
/// last commanded level of each sink.
pub open spec fn snapshot_spec(cl: ControlLoop) -> StateSnapshot {
    StateSnapshot {
        bat_1: cl.source_flip_flop.bat_1.feedback,
        bat_2: cl.source_flip_flop.bat_2.feedback,
        aux_pwr: cl.source_flip_flop.aux_pwr.feedback,
        rocket_lst: cl.sink_ctrl.lst_enable,
        sensor_upp: cl.sink_ctrl.sensor_upp_enable,
        rocket_hd: cl.sink_ctrl.rhd_enable,
    }
}

impl ControlLoop {
    /// Take exclusive ownership of both hardware layers.
    pub fn spawn(source_flip_flop: DFlipFlop, sink_ctrl: SinkCtrl) -> (r: Self)
        ensures
            r == (ControlLoop { source_flip_flop, sink_ctrl }),
    {
        ControlLoop { source_flip_flop, sink_ctrl }
    }

    /// Service one command. Commands for other subsystems are dropped
    /// without any effect. A command carrying a duration is applied at
    /// once; the returned `PendingRevert` is owed after that many
    /// seconds, and until it is applied no other event may be serviced.
    pub fn handle_cmd(&mut self, telecommand: Telecommand) -> (effect: CmdEffect)
        ensures
            *final(self) == handle_cmd_next(*old(self), telecommand),
            effect == handle_cmd_effect(*old(self), telecommand),
    {
        let cmd = match telecommand {
            Telecommand::EPS(cmd) => cmd,
            Telecommand::Other => {
                return CmdEffect { pin_writes: 0, clock_pulses: 0, revert: None };
            },
        };
        match cmd {
            EPSCommand::SetSource(state, time) => {
                let old_state = self.source_flip_flop.get_state();
                let pulsed = self.source_flip_flop.set(state);
                let revert = match time {
                    Some(t) => Some(PendingRevert {
                        delay_secs: t,
                        action: RevertAction::SetSource(old_state),
                    }),
                    None => None,
                };
                if pulsed {
                    CmdEffect { pin_writes: 3, clock_pulses: 1, revert }
                } else {
                    CmdEffect { pin_writes: 0, clock_pulses: 0, revert }
                }
            },
            EPSCommand::EnableSink(sink, time) => {
                if self.sink_ctrl.is_enabled(sink) {
                    return CmdEffect { pin_writes: 0, clock_pulses: 0, revert: None };
                }
                self.sink_ctrl.enable(sink);
                let revert = match time {
                    Some(t) => Some(PendingRevert {
                        delay_secs: t,
                        action: RevertAction::DisableSink(sink),
                    }),
                    None => None,
                };
                CmdEffect { pin_writes: 1, clock_pulses: 0, revert }
            },
            EPSCommand::DisableSink(sink, time) => {
                if !self.sink_ctrl.is_enabled(sink) {
                    return CmdEffect { pin_writes: 0, clock_pulses: 0, revert: None };
                }
                self.sink_ctrl.disable(sink);
                let revert = match time {
                    Some(t) => Some(PendingRevert {
                        delay_secs: t,
                        action: RevertAction::EnableSink(sink),
                    }),
                    None => None,
                };
                CmdEffect { pin_writes: 1, clock_pulses: 0, revert }
            },
        }
    }

    /// Apply the revert owed by a timed command, unconditionally: a
    /// source revert re-runs the switch convergence, a sink revert drives
    /// the pin without checking its level.
    pub fn apply_revert(&mut self, action: RevertAction)
        ensures
            *final(self) == revert_next(*old(self), action),
    {
        match action {
            RevertAction::SetSource(state) => {
                let _pulsed = self.source_flip_flop.set(state);
            },
            RevertAction::EnableSink(sink) => {
                self.sink_ctrl.enable(sink);
            },
            RevertAction::DisableSink(sink) => {
                self.sink_ctrl.disable(sink);
            },
        }
    }

    /// Read every feedback line and every sink level and pack them into
    /// one snapshot. Mutates nothing.
    pub fn state_snapshot(&mut self) -> (r: StateSnapshot)
        ensures
            r == snapshot_spec(*old(self)),
            *final(self) == *old(self),
    {
        StateSnapshot {
            bat_1: self.source_flip_flop.is_enabled(FlipFlopInput::Bat1),
            bat_2: self.source_flip_flop.is_enabled(FlipFlopInput::Bat2),
            aux_pwr: self.source_flip_flop.is_enabled(FlipFlopInput::AuxPwr),
            rocket_lst: self.sink_ctrl.is_enabled(Sink::RocketLST),
            sensor_upp: self.sink_ctrl.is_enabled(Sink::SensorUpper),
            rocket_hd: self.sink_ctrl.is_enabled(Sink::RocketHD),
        }
    }

    /// Service one resolved iteration event: a command is handled, a tick
    /// packs the current state for the telemetry channel.
    pub fn step(&mut self, event: Event) -> (r: StepOutput)
        ensures
            match event {
                Event::Cmd(tc) => *final(self) == handle_cmd_next(*old(self), tc) && r
                    == StepOutput::Handled(handle_cmd_effect(*old(self), tc)),
                Event::Tick => *final(self) == *old(self) && r == StepOutput::Telemetry(
                    snapshot_spec(*old(self)),
                ),
            },
    {
        match event {
            Event::Cmd(tc) => StepOutput::Handled(self.handle_cmd(tc)),
            Event::Tick => StepOutput::Telemetry(self.state_snapshot()),
        }
    }
}

/// `EnableSink` on an already-enabled sink, and `DisableSink` on an
/// already-disabled one, perform zero pin writes, pulse nothing, owe no
/// revert, and leave the whole loop state unchanged.
pub proof fn lemma_matching_sink_cmd_is_noop(cl: ControlLoop, sink: Sink, time: Option<u32>)
    ensures
        sink_enabled(cl.sink_ctrl, sink) ==> handle_cmd_next(
            cl,
            Telecommand::EPS(EPSCommand::EnableSink(sink, time)),
        ) == cl && handle_cmd_effect(cl, Telecommand::EPS(EPSCommand::EnableSink(sink, time)))
            == no_effect(),
        !sink_enabled(cl.sink_ctrl, sink) ==> handle_cmd_next(
            cl,
            Telecommand::EPS(EPSCommand::DisableSink(sink, time)),
        ) == cl && handle_cmd_effect(cl, Telecommand::EPS(EPSCommand::DisableSink(sink, time)))
            == no_effect(),
{
}

/// A timed `SetSource` always schedules exactly one revert, and applying
/// it restores the source intent that existed immediately before the
/// command, with the feedback converged to that intent's pattern.
pub proof fn lemma_set_source_revert_restores(cl: ControlLoop, state: FlipFlopState, t: u32)
    ensures
        ({
            let tc = Telecommand::EPS(EPSCommand::SetSource(state, Some(t)));
            let pending = handle_cmd_effect(cl, tc).revert;
            &&& pending == Some(
                PendingRevert {
                    delay_secs: t,
                    action: RevertAction::SetSource(cl.source_flip_flop.state),
                },
            )
            &&& revert_next(handle_cmd_next(cl, tc), pending->Some_0.action).source_flip_flop.state
                == cl.source_flip_flop.state
            &&& crate::d_flip_flop::observed(
                revert_next(handle_cmd_next(cl, tc), pending->Some_0.action).source_flip_flop,
            ) == crate::d_flip_flop::map_state_spec(cl.source_flip_flop.state)
        }),
{
}

} // verus!
