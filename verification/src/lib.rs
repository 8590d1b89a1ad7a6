//! Coordination core of a fault-tolerant cluster of elevators.
//!
//! A small, fixed set of elevators serves the hall calls of one building, so
//! that every call is served whichever node saw the button go down, also
//! when messages are lost or a node fails. Cab calls are served by their own
//! elevator and survive its restart through the backups of the peers.
//!
//! The library decides and does not do: it reads no clock, no socket and no
//! hardware. Every component takes what has happened, and the instant where
//! it matters, and returns what is to be sent. The program around it runs
//! the loops.
//!
//! - [`local_elevator`]: the state machine of one elevator with its order
//!   list, direction policy, door timer and state watchdog, and the values
//!   exchanged with the hardware.
//! - [`global_elevator_info`]: the fleet view, the call button lights, and
//!   the liveness of the peers.
//! - [`order_assigner`]: the cost function and the hand-off of hall orders.
//! - [`util`]: the configuration of a node.
pub mod global_elevator_info;
pub mod local_elevator;
pub mod order_assigner;
pub mod util;
