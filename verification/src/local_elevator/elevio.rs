//! Values exchanged with the hardware adapter.
pub mod elev;
pub mod poll;
