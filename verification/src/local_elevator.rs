//! Everything that concerns the one elevator this node drives.
pub mod elevio;
pub mod fsm;
