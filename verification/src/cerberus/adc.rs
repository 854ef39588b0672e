//! The ADC multiplexer: four ADC channels each read two signals through a 2:1 mux whose
//! select pins are switched together. Each switch files the current readings of the muxed
//! channels under the side that was selected.

use vstd::prelude::*;

use crate::cerberus::efuses::EfuseId;

verus! {

/// The ADC1 channels, in DMA buffer order.
#[derive(Clone, Copy, PartialEq, Eq, Structural, Debug)]
pub enum Adc1Channels {
    Adc1Channel3,
    Adc1Channel0,
    Adc1Channel5,
    Adc1Channel9,
    Adc1Channel6,
    Adc1Channel2,
    Adc1Channel13,
    Adc1Channel18,
    Adc1Channel15,
}

/// Number of ADC1 channels.
pub const ADC1_CHANNEL_COUNT: usize = 9;

/// Number of muxed signals.
pub const MUX_DATA_COUNT: usize = 8;

impl Adc1Channels {
    /// Position of the channel in the ADC buffer.
    pub open spec fn spec_index(self) -> int {
        match self {
            Adc1Channels::Adc1Channel3 => 0,
            Adc1Channels::Adc1Channel0 => 1,
            Adc1Channels::Adc1Channel5 => 2,
            Adc1Channels::Adc1Channel9 => 3,
            Adc1Channels::Adc1Channel6 => 4,
            Adc1Channels::Adc1Channel2 => 5,
            Adc1Channels::Adc1Channel13 => 6,
            Adc1Channels::Adc1Channel18 => 7,
            Adc1Channels::Adc1Channel15 => 8,
        }
    }

    /// Position of the channel in the ADC buffer.
    pub fn index(self) -> (i: usize)
        ensures
            i == self.spec_index(),
            i < ADC1_CHANNEL_COUNT,
    {
        match self {
            Adc1Channels::Adc1Channel3 => 0,
            Adc1Channels::Adc1Channel0 => 1,
            Adc1Channels::Adc1Channel5 => 2,
            Adc1Channels::Adc1Channel9 => 3,
            Adc1Channels::Adc1Channel6 => 4,
            Adc1Channels::Adc1Channel2 => 5,
            Adc1Channels::Adc1Channel13 => 6,
            Adc1Channels::Adc1Channel18 => 7,
            Adc1Channels::Adc1Channel15 => 8,
        }
    }
}

/// The muxed signals, in mux buffer order.
#[derive(Clone, Copy, PartialEq, Eq, Structural, Debug)]
pub enum MuxDataIndex {
    /// Brake light.
    Sel1High,
    /// Battery box.
    Sel1Low,
    /// LFIU current 1.
    Sel2High,
    /// LFIU current 2.
    Sel2Low,
    /// LV.
    Sel3High,
    /// Shutdown.
    Sel3Low,
    /// Radiator fan.
    Sel4High,
    /// LV battery.
    Sel4Low,
}

impl MuxDataIndex {
    /// Position of the signal in the mux buffer.
    pub open spec fn spec_index(self) -> int {
        match self {
            MuxDataIndex::Sel1High => 0,
            MuxDataIndex::Sel1Low => 1,
            MuxDataIndex::Sel2High => 2,
            MuxDataIndex::Sel2Low => 3,
            MuxDataIndex::Sel3High => 4,
            MuxDataIndex::Sel3Low => 5,
            MuxDataIndex::Sel4High => 6,
            MuxDataIndex::Sel4Low => 7,
        }
    }

    /// The ADC channel the signal is read on.
    pub open spec fn channel(self) -> Adc1Channels {
        match self {
            MuxDataIndex::Sel1High | MuxDataIndex::Sel1Low => Adc1Channels::Adc1Channel0,
            MuxDataIndex::Sel2High | MuxDataIndex::Sel2Low => Adc1Channels::Adc1Channel15,
            MuxDataIndex::Sel3High | MuxDataIndex::Sel3Low => Adc1Channels::Adc1Channel5,
            MuxDataIndex::Sel4High | MuxDataIndex::Sel4Low => Adc1Channels::Adc1Channel9,
        }
    }

    /// Whether the signal is on the high side of its mux.
    pub open spec fn is_high(self) -> bool {
        match self {
            MuxDataIndex::Sel1High | MuxDataIndex::Sel2High | MuxDataIndex::Sel3High | MuxDataIndex::Sel4High => true,
            _ => false,
        }
    }
}

/// Which side of the muxes is selected.
#[derive(Clone, Copy, PartialEq, Eq, Structural, Debug)]
pub enum AdcMuxSel {
    SelLow,
    SelHigh,
}

/// The ADC multiplexer state: which side is selected, the last filed reading of each muxed
/// signal, and the ADC readings.
pub struct AdcMux {
    mux_sel: AdcMuxSel,
    mux_buffer: [u16; 8],
    adc_buffer: [u16; 9],
}

/// Where an efuse's current monitor is read: directly on an ADC channel, or through the mux.
pub enum EfuseSource {
    Adc(Adc1Channels),
    Mux(MuxDataIndex),
    Unmonitored,
}

/// Where each efuse's current monitor is read.
pub open spec fn efuse_source(id: EfuseId) -> EfuseSource {
    match id {
        EfuseId::EfuseDashboard => EfuseSource::Adc(Adc1Channels::Adc1Channel3),
        EfuseId::EfuseBrake => EfuseSource::Mux(MuxDataIndex::Sel1High),
        EfuseId::EfuseShutdown => EfuseSource::Mux(MuxDataIndex::Sel3Low),
        EfuseId::EfuseLV => EfuseSource::Mux(MuxDataIndex::Sel3High),
        EfuseId::EfuseRadfan => EfuseSource::Mux(MuxDataIndex::Sel4High),
        EfuseId::EfuseFanbatt => EfuseSource::Adc(Adc1Channels::Adc1Channel6),
        EfuseId::EfusePump1 => EfuseSource::Adc(Adc1Channels::Adc1Channel2),
        EfuseId::EfusePump2 => EfuseSource::Adc(Adc1Channels::Adc1Channel13),
        EfuseId::EfuseBattbox => EfuseSource::Mux(MuxDataIndex::Sel1Low),
        EfuseId::EfuseMC => EfuseSource::Adc(Adc1Channels::Adc1Channel18),
        EfuseId::EfuseSpare => EfuseSource::Unmonitored,
    }
}

/// The reading of an efuse's current monitor held by `mux`, if the efuse has one.
pub open spec fn efuse_reading(mux: AdcMux, id: EfuseId) -> Option<u16> {
    match efuse_source(id) {
        EfuseSource::Adc(ch) => Some(mux.adc(ch)),
        EfuseSource::Mux(m) => Some(mux.muxed(m)),
        EfuseSource::Unmonitored => None,
    }
}

impl AdcMux {
    /// Whether the high side of the muxes is selected.
    pub closed spec fn selects_high(self) -> bool {
        self.mux_sel == AdcMuxSel::SelHigh
    }

    /// The last filed reading of a muxed signal.
    pub closed spec fn muxed(self, m: MuxDataIndex) -> u16 {
        self.mux_buffer@[m.spec_index()]
    }

    /// The ADC reading of a channel.
    pub closed spec fn adc(self, ch: Adc1Channels) -> u16 {
        self.adc_buffer@[ch.spec_index()]
    }

    /// A multiplexer over the given ADC readings, low side selected, nothing filed yet.
    pub fn new(adc_buffer: [u16; 9]) -> (m: AdcMux)
        ensures
            !m.selects_high(),
            forall|x: MuxDataIndex| #[trigger] m.muxed(x) == 0,
            forall|ch: Adc1Channels| #[trigger] m.adc(ch) == adc_buffer@[ch.spec_index()],
    {
        AdcMux { mux_sel: AdcMuxSel::SelLow, mux_buffer: [0u16; 8], adc_buffer }
    }

    /// Files the readings of the muxed channels under the selected side, then selects the other
    /// side. Returns the level to drive the select pins at: low while the low side was being
    /// filed, high while the high side was.
    pub fn switch_states(&mut self) -> (pins_high: bool)
        ensures
            pins_high == old(self).selects_high(),
            final(self).selects_high() == !old(self).selects_high(),
            forall|m: MuxDataIndex| #[trigger] final(self).muxed(m)
                == if m.is_high() == old(self).selects_high() { old(self).adc(m.channel()) } else { old(self).muxed(m) },
            forall|ch: Adc1Channels| #[trigger] final(self).adc(ch) == old(self).adc(ch),
    {
        let ch0 = self.adc_buffer[1];
        let ch15 = self.adc_buffer[8];
        let ch5 = self.adc_buffer[2];
        let ch9 = self.adc_buffer[3];
        if self.mux_sel == AdcMuxSel::SelLow {
            self.mux_buffer[1] = ch0;
            self.mux_buffer[3] = ch15;
            self.mux_buffer[5] = ch5;
            self.mux_buffer[7] = ch9;
            self.mux_sel = AdcMuxSel::SelHigh;
            false
        } else {
            self.mux_buffer[0] = ch0;
            self.mux_buffer[2] = ch15;
            self.mux_buffer[4] = ch5;
            self.mux_buffer[6] = ch9;
            self.mux_sel = AdcMuxSel::SelLow;
            true
        }
    }

    /// The reading of an efuse's current monitor, or `None` for the spare efuse, which has none.
    pub fn get_efuse_data(&self, efuse_id: EfuseId) -> (r: Option<u16>)
        ensures
            r == efuse_reading(*self, efuse_id),
    {
        match efuse_id {
            EfuseId::EfuseDashboard => Some(self.adc_buffer[0]),
            EfuseId::EfuseBrake => Some(self.mux_buffer[0]),
            EfuseId::EfuseShutdown => Some(self.mux_buffer[5]),
            EfuseId::EfuseLV => Some(self.mux_buffer[4]),
            EfuseId::EfuseRadfan => Some(self.mux_buffer[6]),
            EfuseId::EfuseFanbatt => Some(self.adc_buffer[4]),
            EfuseId::EfusePump1 => Some(self.adc_buffer[5]),
            EfuseId::EfusePump2 => Some(self.adc_buffer[6]),
            EfuseId::EfuseBattbox => Some(self.mux_buffer[1]),
            EfuseId::EfuseMC => Some(self.adc_buffer[7]),
            EfuseId::EfuseSpare => None,
        }
    }
}

} // verus!
