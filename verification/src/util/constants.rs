//! Configuration of a node. It is read once, at startup, and handed to the
//! components when they are created.
use vstd::prelude::*;

verus! {

/// Identity of this node.
pub const ID: usize = 1;

/// UDP port of the hall order assignments.
pub const ORDER_PORT: u16 = 19839;

/// UDP port of the cab order backups.
pub const CAB_BACKUP_PORT: u16 = 19840;

/// UDP port of the elevator snapshots.
pub const ELEV_INFO_PORT: u16 = 19841;

/// Milliseconds without a snapshot after which a peer counts as lost.
pub const TIME_UNTIL_PEER_LOST_MILLISEC: u64 = 500;

/// Milliseconds between two broadcasts of the local snapshot.
pub const INFO_TRANSMIT_PERIOD_MILLISEC: u64 = 15;

/// Milliseconds that a node waits at startup before it joins the cluster, so
/// that the peers have marked its earlier run as lost.
pub const STARTUP_DELAY_MILLISEC: u64 = TIME_UNTIL_PEER_LOST_MILLISEC + 500;

/// Seconds that an elevator may take from one floor to the next.
pub const MOTOR_TIMEOUT_DURATION_SEC: u64 = 5;

/// Seconds that a door may be held open before the hall orders are released.
pub const OBSTRUCTED_TIME_BEFORE_REASSIGN_SEC: u64 = 10;

/// Number of floors of the building.
pub const ELEV_NUM_FLOORS: u8 = 4;

/// Number of identities of the cluster.
pub const MAX_NUM_ELEV: usize = 3;

/// Seconds that the door stays open.
pub const DOOR_OPEN_TIME: u64 = 3;

} // verus!
