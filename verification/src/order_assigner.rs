//! Who serves a hall order: the cost function and the hand-off protocol.
pub mod cost_function;
pub mod order_receiver;
pub mod order_transmitter;
