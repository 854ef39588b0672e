//! The efuses: electronic fuses on the low-voltage outputs, each with an enable pin, an error
//! pin and a current monitor read through the ADC.

use vstd::prelude::*;

use crate::cerberus::adc::{efuse_reading, AdcMux};

verus! {

/// Full-scale code of the 12-bit ADC.
pub const MAX_TWELVE_BIT_RESOLUTION: u16 = 4095;

/// How an efuse is controlled.
#[derive(Clone, Copy, PartialEq, Eq, Structural, Debug)]
pub enum EfuseControlState {
    EfuseOn,
    EfuseOff,
    EfuseAuto,
}

/// The efuses on the board.
#[derive(Clone, Copy, PartialEq, Eq, Structural, Debug)]
pub enum EfuseId {
    EfuseDashboard,
    EfuseBrake,
    EfuseShutdown,
    EfuseLV,
    EfuseRadfan,
    EfuseFanbatt,
    EfusePump1,
    EfusePump2,
    EfuseBattbox,
    EfuseMC,
    EfuseSpare,
}

/// One efuse: its id, how it is controlled, and the level its enable pin is driven at.
pub struct Efuse {
    efuse_id: EfuseId,
    control_state: EfuseControlState,
    enabled: bool,
}

impl Efuse {
    pub closed spec fn id(self) -> EfuseId {
        self.efuse_id
    }

    pub closed spec fn control_state(self) -> EfuseControlState {
        self.control_state
    }

    /// Whether the enable pin is driven high.
    pub closed spec fn enabled(self) -> bool {
        self.enabled
    }

    /// A new efuse with the given id and control state, its enable pin low.
    pub fn new(efuse_id: EfuseId, default_state: EfuseControlState) -> (e: Efuse)
        ensures
            e.id() == efuse_id,
            e.control_state() == default_state,
            !e.enabled(),
    {
        Efuse { efuse_id, control_state: default_state, enabled: false }
    }

    pub fn get_id(&self) -> (id: EfuseId)
        ensures
            id == self.id(),
    {
        self.efuse_id
    }

    /// Drives the enable pin high.
    pub fn enable(&mut self)
        ensures
            final(self).enabled(),
            final(self).id() == old(self).id(),
            final(self).control_state() == old(self).control_state(),
    {
        self.enabled = true;
    }

    /// Drives the enable pin low.
    pub fn disable(&mut self)
        ensures
            !final(self).enabled(),
            final(self).id() == old(self).id(),
            final(self).control_state() == old(self).control_state(),
    {
        self.enabled = false;
    }

    pub fn update_control_state(&mut self, new_control_state: EfuseControlState)
        ensures
            final(self).control_state() == new_control_state,
            final(self).id() == old(self).id(),
            final(self).enabled() == old(self).enabled(),
    {
        self.control_state = new_control_state;
    }

    pub fn get_control_state(&self) -> (s: EfuseControlState)
        ensures
            s == self.control_state(),
    {
        self.control_state
    }

    /// Whether the enable pin is driven high.
    pub fn is_enabled(&self) -> (on: bool)
        ensures
            on == self.enabled(),
    {
        self.enabled
    }

    /// The efuse's ADC reading in whole full-scale units (`reading / 4095`, rounded down), the
    /// integer the voltage and current are scaled from; `None` for an efuse without a monitor.
    pub fn get_data_full_scale(&self, adc_mux: &AdcMux) -> (r: Option<u16>)
        ensures
            r == (match efuse_reading(*adc_mux, self.id()) {
                Some(d) => Some((d / MAX_TWELVE_BIT_RESOLUTION) as u16),
                None => None,
            }),
    {
        match adc_mux.get_efuse_data(self.efuse_id) {
            Some(data) => Some(data / MAX_TWELVE_BIT_RESOLUTION),
            None => None,
        }
    }
}

} // verus!
