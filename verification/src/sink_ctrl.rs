//! Sink gate: one active-high enable pin per downstream load, each gated
//! independently. The reported state of a sink is the last commanded
//! output level; this layer has no feedback path.
//!
//! The set of loads is a hardware-revision parameter; this configuration
//! carries the three loads the control loop reports: the rocket low-speed
//! telemetry rail, the upper sensor rail, and the rocket high-data rail.

use vstd::prelude::*;

verus! {

/// One independently switchable downstream load.
#[derive(Clone, Copy, Debug, PartialEq, Eq, Structural)]
pub enum Sink {
    RocketLST,
    SensorUpper,
    RocketHD,
}

/// Last commanded level of each load's enable pin.
#[derive(Clone, Copy, Debug, PartialEq, Eq, Structural)]
pub struct SinkCtrl {
    pub lst_enable: bool,
    pub sensor_upp_enable: bool,
    pub rhd_enable: bool,
}

/// The last commanded level of one sink's pin.
pub open spec fn sink_enabled(sc: SinkCtrl, sink: Sink) -> bool {
    match sink {
        Sink::RocketLST => sc.lst_enable,
        Sink::SensorUpper => sc.sensor_upp_enable,
        Sink::RocketHD => sc.rhd_enable,
    }
}

/// One sink's pin forced to `level` while the remaining pins keep
/// their levels.
pub open spec fn with_sink(sc: SinkCtrl, sink: Sink, level: bool) -> SinkCtrl {
    match sink {
        Sink::RocketLST => SinkCtrl { lst_enable: level, ..sc },
        Sink::SensorUpper => SinkCtrl { sensor_upp_enable: level, ..sc },
        Sink::RocketHD => SinkCtrl { rhd_enable: level, ..sc },
    }
}

impl SinkCtrl {
    /// A freshly constructed gate drives every enable pin high.
    pub fn new() -> (r: Self)
        ensures
            r == (SinkCtrl { lst_enable: true, sensor_upp_enable: true, rhd_enable: true }),
    {
        SinkCtrl { lst_enable: true, sensor_upp_enable: true, rhd_enable: true }
    }

    /// Dispatch from a sink to its enable pin: a static table, one entry
    /// per configured load.
    fn get(&mut self, sink: Sink) -> (r: &mut bool)
        ensures
            *r == sink_enabled(*old(self), sink),
            *final(self) == with_sink(*old(self), sink, *final(r)),
    {
        match sink {
            Sink::RocketLST => &mut self.lst_enable,
            Sink::SensorUpper => &mut self.sensor_upp_enable,
            Sink::RocketHD => &mut self.rhd_enable,
        }
    }

    /// Drive the sink's pin high. Idempotent: a second call leaves the
    /// same level.
    pub fn enable(&mut self, sink: Sink)
        ensures
            *final(self) == with_sink(*old(self), sink, true),
    {
        let pin = self.get(sink);
        *pin = true;
    }

    /// Drive the sink's pin low. Idempotent: a second call leaves the
    /// same level.
    pub fn disable(&mut self, sink: Sink)
        ensures
            *final(self) == with_sink(*old(self), sink, false),
    {
        let pin = self.get(sink);
        *pin = false;
    }

    /// The last commanded level of the sink's pin.
    pub fn is_enabled(&mut self, sink: Sink) -> (r: bool)
        ensures
            r == sink_enabled(*old(self), sink),
            *final(self) == *old(self),
    {
        *self.get(sink)
    }
}

/// Gating is idempotent: driving a sink to a level twice leaves the same
/// gate as driving it once, and the sink then reports that level.
pub proof fn lemma_gating_idempotent(sc: SinkCtrl, sink: Sink, level: bool)
    ensures
        with_sink(with_sink(sc, sink, level), sink, level) == with_sink(sc, sink, level),
        sink_enabled(with_sink(sc, sink, level), sink) == level,
{
}

} // verus!
