//! What this node knows of every elevator of the cluster.
pub mod connected_elevators;
pub mod elev_info_updater;
pub mod order_lights;
