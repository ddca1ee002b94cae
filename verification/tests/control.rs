use eps_core::control_loop::{
    CmdEffect, ControlLoop, EPSCommand, Event, PendingRevert, RevertAction, StepOutput, Telecommand,
    CONTROL_LOOP_TM_INTERVAL,
};
use eps_core::d_flip_flop::{DFlipFlop, FlipFlopInput, FlipFlopState};
use eps_core::sink_ctrl::{Sink, SinkCtrl};

fn fresh_loop() -> ControlLoop {
    ControlLoop::spawn(DFlipFlop::new(false, false, false), SinkCtrl::new())
}

fn feedback(cl: &ControlLoop) -> (bool, bool, bool) {
    (
        cl.source_flip_flop.is_enabled(FlipFlopInput::Bat1),
        cl.source_flip_flop.is_enabled(FlipFlopInput::Bat2),
        cl.source_flip_flop.is_enabled(FlipFlopInput::AuxPwr),
    )
}

#[test]
fn telemetry_interval_is_half_a_second() {
    assert_eq!(CONTROL_LOOP_TM_INTERVAL, 500);
}

#[test]
fn foreign_command_is_dropped_silently() {
    let mut cl = fresh_loop();
    let before = cl;
    let effect = cl.handle_cmd(Telecommand::Other);
    assert_eq!(cl, before);
    assert_eq!(
        effect,
        CmdEffect { pin_writes: 0, clock_pulses: 0, revert: None }
    );
}

#[test]
fn enable_already_enabled_sink_is_noop() {
    let mut cl = fresh_loop();
    let before = cl;
    let effect = cl.handle_cmd(Telecommand::EPS(EPSCommand::EnableSink(Sink::RocketLST, Some(3))));
    assert_eq!(cl, before);
    assert_eq!(effect.pin_writes, 0);
    assert_eq!(effect.clock_pulses, 0);
    assert!(effect.revert.is_none());
}

#[test]
fn disable_already_disabled_sink_is_noop() {
    let mut cl = fresh_loop();
    cl.handle_cmd(Telecommand::EPS(EPSCommand::DisableSink(Sink::SensorUpper, None)));
    let before = cl;
    let effect = cl.handle_cmd(Telecommand::EPS(EPSCommand::DisableSink(Sink::SensorUpper, Some(7))));
    assert_eq!(cl, before);
    assert_eq!(effect.pin_writes, 0);
    assert_eq!(effect.clock_pulses, 0);
    assert!(effect.revert.is_none());
}

#[test]
fn set_source_bat1_from_off_then_tick() {
    let mut cl = fresh_loop();
    let effect = cl.handle_cmd(Telecommand::EPS(EPSCommand::SetSource(FlipFlopState::Bat1, None)));
    // Exactly one clock pulse, feedback becomes (true, false, false).
    assert_eq!(effect.clock_pulses, 1);
    assert!(effect.revert.is_none());
    assert_eq!(feedback(&cl), (true, false, false));
    // A subsequent tick emits a snapshot with bit 0 set and bits 1-2 clear.
    match cl.step(Event::Tick) {
        StepOutput::Telemetry(snap) => {
            let bits = snap.bits();
            assert_eq!(bits & 0b111, 0b001);
        }
        StepOutput::Handled(_) => panic!("a tick must emit telemetry"),
    }
}

#[test]
fn timed_set_source_reverts_to_prior_state() {
    let mut cl = fresh_loop();
    cl.handle_cmd(Telecommand::EPS(EPSCommand::SetSource(FlipFlopState::Bat1, None)));
    // Timed command: switch to AuxPwr for five seconds.
    let effect = cl.handle_cmd(Telecommand::EPS(EPSCommand::SetSource(FlipFlopState::AuxPwr, Some(5))));
    assert_eq!(feedback(&cl), (false, false, true));
    let pending = effect.revert.expect("a duration must schedule a revert");
    assert_eq!(
        pending,
        PendingRevert { delay_secs: 5, action: RevertAction::SetSource(FlipFlopState::Bat1) }
    );
    // During the hold the driver services nothing else; a command that
    // arrived meanwhile waits until after the revert.
    let queued = Telecommand::EPS(EPSCommand::DisableSink(Sink::RocketHD, None));
    cl.apply_revert(pending.action);
    assert_eq!(feedback(&cl), (true, false, false));
    assert_eq!(cl.source_flip_flop.get_state(), FlipFlopState::Bat1);
    let queued_effect = cl.handle_cmd(queued);
    assert_eq!(queued_effect.pin_writes, 1);
    assert_eq!(feedback(&cl), (true, false, false));
}

#[test]
fn timed_enable_sink_reverts_and_delays_repeat() {
    let mut cl = fresh_loop();
    cl.handle_cmd(Telecommand::EPS(EPSCommand::DisableSink(Sink::RocketHD, None)));
    let mut sc = cl.sink_ctrl;
    assert!(!sc.is_enabled(Sink::RocketHD));
    // Timed enable: the pin goes high immediately.
    let effect = cl.handle_cmd(Telecommand::EPS(EPSCommand::EnableSink(Sink::RocketHD, Some(10))));
    assert_eq!(effect.pin_writes, 1);
    assert!(cl.sink_ctrl.rhd_enable);
    let pending = effect.revert.expect("a duration must schedule a revert");
    assert_eq!(
        pending,
        PendingRevert { delay_secs: 10, action: RevertAction::DisableSink(Sink::RocketHD) }
    );
    // A repeated enable issued during the hold is queued, not serviced.
    let repeat = Telecommand::EPS(EPSCommand::EnableSink(Sink::RocketHD, Some(10)));
    // At the end of the hold the pin goes low again.
    cl.apply_revert(pending.action);
    sc = cl.sink_ctrl;
    assert!(!sc.is_enabled(Sink::RocketHD));
    // Only now is the repeated command serviced, and it re-enables.
    let repeat_effect = cl.handle_cmd(repeat);
    assert_eq!(repeat_effect.pin_writes, 1);
    assert!(cl.sink_ctrl.rhd_enable);
    assert!(repeat_effect.revert.is_some());
}

#[test]
fn step_dispatches_commands_and_ticks() {
    let mut cl = fresh_loop();
    match cl.step(Event::Cmd(Telecommand::EPS(EPSCommand::SetSource(FlipFlopState::On, None)))) {
        StepOutput::Handled(effect) => {
            assert_eq!(effect.clock_pulses, 1);
            assert_eq!(effect.pin_writes, 3);
        }
        StepOutput::Telemetry(_) => panic!("a command must be handled"),
    }
    match cl.step(Event::Tick) {
        StepOutput::Telemetry(snap) => {
            assert_eq!(snap.bits(), 0b111111);
        }
        StepOutput::Handled(_) => panic!("a tick must emit telemetry"),
    }
}

#[test]
fn snapshot_reflects_feedback_and_sink_levels() {
    let mut cl = fresh_loop();
    cl.handle_cmd(Telecommand::EPS(EPSCommand::SetSource(FlipFlopState::Bat2, None)));
    cl.handle_cmd(Telecommand::EPS(EPSCommand::DisableSink(Sink::RocketLST, None)));
    let snap = cl.state_snapshot();
    assert!(!snap.bat_1);
    assert!(snap.bat_2);
    assert!(!snap.aux_pwr);
    assert!(!snap.rocket_lst);
    assert!(snap.sensor_upp);
    assert!(snap.rocket_hd);
    assert_eq!(snap.bits(), 0b110010);
}
