//! Cerberus, the vehicle control unit: the ready-to-drive sound, the ADC multiplexer feeding
//! the efuse current monitors, the efuses themselves, and the PHY set-up of its 10BASE-T1S
//! Ethernet link.

pub mod adc;
pub mod efuses;
pub mod plca;
pub mod rtds;
