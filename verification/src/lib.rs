//! Verified decision logic of the NER vehicle firmware: the lightning fault-light board, the
//! cerberus RTDS and efuse monitoring, and the shepherd BMS faults, job diagnostics, HV-plate
//! cache and HIL transport.

pub mod clock;
pub mod shepherd;
pub mod lightning;
pub mod cerberus;
