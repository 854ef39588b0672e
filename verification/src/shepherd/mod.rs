//! Shepherd, the BMS: fault bookkeeping, job diagnostics, the HV-plate register cache and task
//! gating, and the hardware-in-the-loop transport for the isoSPI chips.

pub mod faults;
pub mod hil;
pub mod hv_plate;
pub mod job_diagnostics;
pub mod register_cache;
