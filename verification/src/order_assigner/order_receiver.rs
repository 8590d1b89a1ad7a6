//! The receiving side of the hand-off: what to do with an assignment heard
//! on the network, and which cab orders to take back after a restart.
use crate::local_elevator::elevio::poll::{CallButton, CAB};
use crate::local_elevator::fsm::elevatorfsm::{ElevatorInfo, ElevatorInfoView};
use crate::local_elevator::fsm::order_list::OrderType;
use crate::order_assigner::order_transmitter::RouterAction;
use vstd::prelude::*;

verus! {

/// Milliseconds after its start during which a node listens for backups of
/// its own cab orders.
pub const CAB_BACKUP_WINDOW_MILLISEC: u64 = 5000;

/// Decides what the node `local_id` does with the assignment
/// `(id, call_button)` that it has heard: an order for its own elevator is
/// given to it, an order for another is marked `Pending` for that elevator
/// in the fleet view.
pub fn receive_order(local_id: usize, id: usize, call_button: CallButton) -> (action: RouterAction)
    ensures
        id == local_id ==> action == (RouterAction::AssignLocally { button: call_button }),
        id != local_id ==> action == (RouterAction::SetPending {
            should_set: true,
            id,
            button: call_button,
        }),
{
    if id == local_id {
        RouterAction::AssignLocally { button: call_button }
    } else {
        RouterAction::SetPending { should_set: true, id, button: call_button }
    }
}

/// The cab button of the floor `floor`.
pub open spec fn cab_button(floor: int) -> CallButton {
    CallButton { floor: floor as u8, call: CAB }
}

/// The cab buttons of a building of `n_floors` floors, from the lowest floor
/// up.
pub open spec fn cab_buttons(n_floors: nat) -> Seq<CallButton> {
    Seq::new(n_floors, |f: int| cab_button(f))
}

/// The buttons whose order is `Active` in `backup`.
pub open spec fn active_in(backup: ElevatorInfoView) -> spec_fn(CallButton) -> bool {
    |b: CallButton| backup.orders.status(b) == OrderType::Active
}

/// The cab orders that the node `local_id` takes back on hearing the backup
/// `backup`: the `Active` cab orders of a backup of its own elevator, from
/// the lowest floor up; none of a backup of another elevator.
pub open spec fn restored_cab_orders(local_id: usize, backup: ElevatorInfoView) -> Seq<CallButton> {
    if backup.id == local_id {
        cab_buttons(backup.orders.n_floors()).filter(active_in(backup))
    } else {
        seq![]
    }
}

/// The backup window of a node started at `start_time` is open at `now`.
pub open spec fn window_open(start_time: u64, now: u64) -> bool {
    now - start_time < CAB_BACKUP_WINDOW_MILLISEC
}

/// Tells whether a node, started at `start_time`, still listens for backups
/// of its cab orders at `now`. Both instants are in milliseconds.
pub fn backup_window_open(start_time: u64, now: u64) -> (open: bool)
    ensures
        open == window_open(start_time, now),
{
    now < start_time || now - start_time < CAB_BACKUP_WINDOW_MILLISEC
}

/// The cab orders to give to the local elevator again, on hearing the
/// backup `backup` after a restart.
pub fn cab_orders_to_restore(local_id: usize, backup: &ElevatorInfo) -> (orders: Vec<CallButton>)
    requires
        backup@.orders.wf(),
    ensures
        orders@ == restored_cab_orders(local_id, backup@),
{
    let mut orders: Vec<CallButton> = Vec::new();
    if backup.id != local_id {
        return orders;
    }
    let n_floors: usize = backup.responsible_orders.num_floors();
    let ghost grid = cab_buttons(backup@.orders.n_floors());
    let ghost pred = active_in(backup@);
    proof {
        reveal(Seq::filter);
        assert(grid.take(0) =~= Seq::<CallButton>::empty());
    }
    let mut f: usize = 0;
    while f < n_floors
        invariant
            f <= n_floors,
            n_floors == backup@.orders.n_floors(),
            backup@.orders.wf(),
            grid == cab_buttons(backup@.orders.n_floors()),
            pred == active_in(backup@),
            orders@ == grid.take(f as int).filter(pred),
        decreases n_floors - f,
    {
        let btn = CallButton { floor: f as u8, call: CAB };
        proof {
            assert(grid[f as int] == btn);
            assert(grid.take(f + 1) =~= grid.take(f as int).push(btn));
            grid.take(f as int).lemma_filter_push(btn, pred);
        }
        if backup.responsible_orders.is_active(btn) {
            orders.push(btn);
        }
        f += 1;
    }
    assert(grid.take(n_floors as int) =~= grid);
    orders
}

/// Every cab order that is `Active` in a backup of the node's own elevator
/// is among the orders that the node takes back.
pub proof fn lemma_active_cab_order_is_restored(backup: ElevatorInfoView, floor: int)
    requires
        backup.orders.wf(),
        0 <= floor < backup.orders.n_floors(),
        backup.orders.inside[floor] == OrderType::Active,
    ensures
        restored_cab_orders(backup.id, backup).contains(cab_button(floor)),
{
    let grid = cab_buttons(backup.orders.n_floors());
    assert(grid[floor] == cab_button(floor));
    assert(grid.contains(cab_button(floor)));
    assert(active_in(backup)(cab_button(floor)));
}

} // verus!
