use vstd::prelude::*;
use core::marker::PhantomData;
use crate::timing::{bit_timing_for, calc_fdcan_timings, NominalBitTiming};

verus! {

/// Operating modes of the controller.
#[derive(Clone, Copy, Debug, PartialEq, Eq, Structural)]
pub enum OperatingMode {
    PoweredDown,
    Config,
    InternalLoopback,
    ExternalLoopback,
    Normal,
    RestrictedOperation,
    BusMonitoring,
    Test,
}

/// The transitions that the driver offers; no other edge exists.
pub open spec fn legal_transition(from: OperatingMode, to: OperatingMode) -> bool {
    ||| (from == OperatingMode::PoweredDown && to == OperatingMode::Config)
    ||| (from == OperatingMode::InternalLoopback && to == OperatingMode::Config)
    ||| (from == OperatingMode::Config && to == OperatingMode::Normal)
    ||| (from == OperatingMode::Config && to == OperatingMode::ExternalLoopback)
    ||| (from == OperatingMode::Config && to == OperatingMode::InternalLoopback)
}

/// A sequence of modes in which each step is a legal transition.
pub open spec fn legal_path(path: Seq<OperatingMode>) -> bool {
    forall|i: int| 0 <= i < path.len() - 1 ==> legal_transition(#[trigger] path[i], path[i + 1])
}

/// A type that stands for one operating mode.
pub trait FdcanOperatingMode {
    /// The mode this type stands for.
    spec fn spec_mode() -> OperatingMode;

    /// Returns the mode this type stands for.
    fn mode() -> (r: OperatingMode)
        ensures
            r == Self::spec_mode(),
    ;
}

/// Modes in which frames can be sent.
pub trait Transmit: FdcanOperatingMode {

}

/// Modes in which frames can be received.
pub trait Receive: FdcanOperatingMode {

}

pub struct PoweredDownMode;

pub struct ConfigMode;

pub struct InternalLoopbackMode;

pub struct ExternalLoopbackMode;

pub struct NormalOperationMode;

pub struct RestrictedOperationMode;

pub struct BusMonitoringMode;

pub struct TestMode;

impl FdcanOperatingMode for PoweredDownMode {
    open spec fn spec_mode() -> OperatingMode {
        OperatingMode::PoweredDown
    }

    fn mode() -> (r: OperatingMode) {
        OperatingMode::PoweredDown
    }
}

impl FdcanOperatingMode for ConfigMode {
    open spec fn spec_mode() -> OperatingMode {
        OperatingMode::Config
    }

    fn mode() -> (r: OperatingMode) {
        OperatingMode::Config
    }
}

impl FdcanOperatingMode for InternalLoopbackMode {
    open spec fn spec_mode() -> OperatingMode {
        OperatingMode::InternalLoopback
    }

    fn mode() -> (r: OperatingMode) {
        OperatingMode::InternalLoopback
    }
}

impl FdcanOperatingMode for ExternalLoopbackMode {
    open spec fn spec_mode() -> OperatingMode {
        OperatingMode::ExternalLoopback
    }

    fn mode() -> (r: OperatingMode) {
        OperatingMode::ExternalLoopback
    }
}

impl FdcanOperatingMode for NormalOperationMode {
    open spec fn spec_mode() -> OperatingMode {
        OperatingMode::Normal
    }

    fn mode() -> (r: OperatingMode) {
        OperatingMode::Normal
    }
}

impl FdcanOperatingMode for RestrictedOperationMode {
    open spec fn spec_mode() -> OperatingMode {
        OperatingMode::RestrictedOperation
    }

    fn mode() -> (r: OperatingMode) {
        OperatingMode::RestrictedOperation
    }
}

impl FdcanOperatingMode for BusMonitoringMode {
    open spec fn spec_mode() -> OperatingMode {
        OperatingMode::BusMonitoring
    }

    fn mode() -> (r: OperatingMode) {
        OperatingMode::BusMonitoring
    }
}

impl FdcanOperatingMode for TestMode {
    open spec fn spec_mode() -> OperatingMode {
        OperatingMode::Test
    }

    fn mode() -> (r: OperatingMode) {
        OperatingMode::Test
    }
}

impl Transmit for InternalLoopbackMode {

}

impl Receive for InternalLoopbackMode {

}

impl Transmit for ExternalLoopbackMode {

}

impl Receive for ExternalLoopbackMode {

}

impl Transmit for NormalOperationMode {

}

impl Receive for NormalOperationMode {

}

impl Receive for RestrictedOperationMode {

}

impl Receive for BusMonitoringMode {

}

/// Handle of one controller in mode `M`. A transition consumes the handle
/// and returns one in the new mode, so two modes are never live at once.
pub struct Fdcan<M: FdcanOperatingMode> {
    periph_clock: u32,
    nominal_bit_timing: Option<NominalBitTiming>,
    mode: PhantomData<M>,
}

impl<M: FdcanOperatingMode> Fdcan<M> {
    /// The operating mode of the handle.
    pub open spec fn spec_mode(&self) -> OperatingMode {
        M::spec_mode()
    }

    /// Peripheral clock frequency in Hz.
    pub closed spec fn spec_clock(&self) -> u32 {
        self.periph_clock
    }

    /// The bit timing last configured, if any.
    pub closed spec fn spec_timing(&self) -> Option<NominalBitTiming> {
        self.nominal_bit_timing
    }

    /// The operating mode of the handle.
    pub fn mode(&self) -> (r: OperatingMode)
        ensures
            r == self.spec_mode(),
    {
        M::mode()
    }

    /// Returns the peripheral clock frequency in Hz.
    pub fn periph_clock(&self) -> (r: u32)
        ensures
            r == self.spec_clock(),
    {
        self.periph_clock
    }

    /// Returns the bit timing last configured, if any.
    pub fn nominal_bit_timing(&self) -> (r: Option<NominalBitTiming>)
        ensures
            r == self.spec_timing(),
    {
        self.nominal_bit_timing
    }

    /// The same controller in mode `N`.
    fn switch<N: FdcanOperatingMode>(self) -> (r: Fdcan<N>)
        ensures
            r.spec_clock() == self.spec_clock(),
            r.spec_timing() == self.spec_timing(),
    {
        Fdcan { periph_clock: self.periph_clock, nominal_bit_timing: self.nominal_bit_timing, mode: PhantomData }
    }
}

impl Fdcan<ConfigMode> {
    /// Creates a handle in configuration mode for a controller clocked at
    /// `periph_clock` Hz, with no bit timing set yet.
    pub fn new(periph_clock: u32) -> (r: Fdcan<ConfigMode>)
        ensures
            r.spec_clock() == periph_clock,
            r.spec_timing() is None,
    {
        Fdcan { periph_clock, nominal_bit_timing: None, mode: PhantomData }
    }

    /// Configures the bit timing computed for `bitrate`. A bitrate with no
    /// exact solution for the clock is a configuration error, ruled out here.
    pub fn set_bitrate(&mut self, bitrate: u32)
        requires
            bit_timing_for(old(self).spec_clock(), bitrate) is Some,
        ensures
            final(self).spec_clock() == old(self).spec_clock(),
            final(self).spec_timing() == bit_timing_for(old(self).spec_clock(), bitrate),
    {
        let timing = calc_fdcan_timings(self.periph_clock, bitrate);
        self.nominal_bit_timing = timing;
    }

    /// Configures an explicit bit timing.
    pub fn set_nominal_bit_timing(&mut self, timing: NominalBitTiming)
        requires
            timing.wf(),
        ensures
            final(self).spec_clock() == old(self).spec_clock(),
            final(self).spec_timing() == Some(timing),
    {
        self.nominal_bit_timing = Some(timing);
    }

    /// Starts taking part in bus traffic.
    pub fn into_normal_mode(self) -> (r: Fdcan<NormalOperationMode>)
        ensures
            r.spec_clock() == self.spec_clock(),
            r.spec_timing() == self.spec_timing(),
            legal_transition(self.spec_mode(), r.spec_mode()),
    {
        self.switch()
    }

    /// Sends frames to the bus and reads them back.
    pub fn into_external_loopback_mode(self) -> (r: Fdcan<ExternalLoopbackMode>)
        ensures
            r.spec_clock() == self.spec_clock(),
            r.spec_timing() == self.spec_timing(),
            legal_transition(self.spec_mode(), r.spec_mode()),
    {
        self.switch()
    }

    /// Reads back its own frames without touching the bus.
    pub fn into_internal_loopback_mode(self) -> (r: Fdcan<InternalLoopbackMode>)
        ensures
            r.spec_clock() == self.spec_clock(),
            r.spec_timing() == self.spec_timing(),
            legal_transition(self.spec_mode(), r.spec_mode()),
    {
        self.switch()
    }
}

impl Fdcan<PoweredDownMode> {
    /// Leaves power-down for configuration mode.
    pub fn into_config_mode(self) -> (r: Fdcan<ConfigMode>)
        ensures
            r.spec_clock() == self.spec_clock(),
            r.spec_timing() == self.spec_timing(),
            legal_transition(self.spec_mode(), r.spec_mode()),
    {
        self.switch()
    }
}

impl Fdcan<InternalLoopbackMode> {
    /// Goes back to configuration mode.
    pub fn into_config_mode(self) -> (r: Fdcan<ConfigMode>)
        ensures
            r.spec_clock() == self.spec_clock(),
            r.spec_timing() == self.spec_timing(),
            legal_transition(self.spec_mode(), r.spec_mode()),
    {
        self.switch()
    }
}

/// Normal mode is reached only from configuration mode: power-down has no
/// direct edge to it, and in any legal sequence of modes the step into
/// normal mode starts from configuration mode.
pub proof fn lemma_normal_only_from_config(path: Seq<OperatingMode>, i: int)
    requires
        legal_path(path),
        0 < i < path.len(),
        path[i] == OperatingMode::Normal,
    ensures
        path[i - 1] == OperatingMode::Config,
        !legal_transition(OperatingMode::PoweredDown, OperatingMode::Normal),
{
    assert(legal_transition(path[i - 1], path[i]));
}

} // verus!
