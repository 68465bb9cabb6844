//! Low-power support for STM32 microcontrollers.
//!
//! STM32 chips have deep-sleep modes that gate clocks to save power. [`sleep::sleep`] enters the
//! deepest of them that the running peripherals permit, and falls back to plain `WFI`. Which mode
//! is permitted is for the clock driver to say; whether the next timer event is far enough away to
//! make a stop worth its latency is for the time driver, which refuses to pause if it is not.
//!
//! The library decides and does not touch the hardware: it hands out operations
//! ([`op::Op`]) and takes back what they reported ([`op::Reply`]).

pub mod batch;
pub mod chip;
pub mod dump;
pub mod gpio;
pub mod laws;
pub mod op;
pub mod pac;
pub mod platform;
pub mod protocol;
pub mod rcc;
pub mod register;
pub mod restore;
pub mod sleep;
pub mod state;
pub mod trace;
pub mod words;
