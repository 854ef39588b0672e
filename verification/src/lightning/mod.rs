//! The lightning board: it listens for BMS, IMD and latch-reset CAN frames and shows the
//! accumulator fault state on a red and a green LED.

pub mod frames;
pub mod inbox;
pub mod leds;
pub mod state;
