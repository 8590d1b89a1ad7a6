//! The state machine of the local elevator and what it is built from.
pub mod direction_decider;
pub mod door_timer;
pub mod elevatorfsm;
pub mod order_list;
pub mod state_watchdog;
