//! The sending side of the hand-off: what to do with a button pressed at
//! this node, and what to do when an order handed to a peer is due for its
//! check.
use crate::global_elevator_info::connected_elevators::{ConnectedElevatorInfo, FleetView};
use crate::local_elevator::elevio::poll::{CallButton, CAB};
use crate::order_assigner::cost_function::{
    all_can_simulate,
    find_lowest_cost_id,
    is_cheapest,
    nobody_available,
};
use vstd::prelude::*;

verus! {

/// Number of copies in which an assignment is broadcast, against loss.
pub const ORDER_BURST_SIZE: usize = 5;

/// Number of copies in which a cab backup is broadcast, against loss.
pub const CAB_BACKUP_BURST_SIZE: usize = 10;

/// Milliseconds between handing an order to a peer and checking that the
/// peer has accepted it.
pub const PENDING_CHECK_DELAY_MILLISEC: u64 = 1000;

/// One thing that the router asks of its surroundings.
#[derive(Debug, Clone, Copy, PartialEq, Eq, Structural)]
pub enum RouterAction {
    /// The local elevator is given the order of `button`.
    AssignLocally { button: CallButton },
    /// The assignment of the order of `button` to the elevator `owner` is
    /// broadcast, in [`ORDER_BURST_SIZE`] copies.
    Broadcast { owner: usize, button: CallButton },
    /// The fleet view marks the order `(id, button)` as `Pending`
    /// (`should_set`) or takes the mark back (`!should_set`).
    SetPending { should_set: bool, id: usize, button: CallButton },
    /// The order `(id, button)` is checked after
    /// [`PENDING_CHECK_DELAY_MILLISEC`].
    CheckLater { id: usize, button: CallButton },
}

/// The elevator that the order of `button` goes to, by the fleet view
/// `fleet`, is `owner`: the local elevator for a cab order, the cheapest
/// elevator for a hall order, the local one again if no elevator can take
/// an order.
pub open spec fn is_owner(fleet: FleetView, button: CallButton, owner: int) -> bool {
    if button.call == CAB || nobody_available(fleet, button) {
        owner == fleet.local_id
    } else {
        is_cheapest(fleet, button, owner)
    }
}

/// The elevator that the order of `button` goes to, by the fleet view
/// `fleet`. By [`lemma_owner_is_unique`] it is the only one that
/// [`is_owner`] holds of.
pub open spec fn owner_of(fleet: FleetView, button: CallButton) -> usize {
    choose|owner: usize| is_owner(fleet, button, owner as int)
}

/// What the node `local_id` does to give the order of `button` to `owner`.
/// Its own elevator is simply given the order. A peer is told by broadcast,
/// the order is marked `Pending` for it, and a check is arranged.
pub open spec fn assignment(local_id: usize, owner: usize, button: CallButton) -> Seq<RouterAction> {
    if owner == local_id {
        seq![RouterAction::AssignLocally { button }]
    } else {
        seq![
            RouterAction::Broadcast { owner, button },
            RouterAction::SetPending { should_set: true, id: owner, button },
            RouterAction::CheckLater { id: owner, button },
        ]
    }
}

/// What the node does when the check of the order `(id, button)` is due:
/// nothing if the fleet view shows the order as `Active` for `id`; else the
/// order comes back: the local elevator is given it, and the `Pending` mark
/// is taken back.
pub open spec fn check_result(fleet: FleetView, id: usize, button: CallButton) -> Seq<RouterAction> {
    if fleet.is_active(id as int, button) {
        seq![]
    } else {
        seq![
            RouterAction::AssignLocally { button },
            RouterAction::SetPending { should_set: false, id, button },
        ]
    }
}

/// Decides who serves the order of `call_button`, pressed at this node, and
/// returns what is to be done for it. A cab order never leaves the node. A
/// hall order goes to the elevator that [`find_lowest_cost_id`] picks.
pub fn assign_order(connected_elevator_info: &ConnectedElevatorInfo, call_button: CallButton) -> (actions:
    Vec<RouterAction>)
    requires
        connected_elevator_info.wf(),
        all_can_simulate(connected_elevator_info@),
        call_button.valid(connected_elevator_info@.n_floors()),
    ensures
        is_owner(
            connected_elevator_info@,
            call_button,
            owner_of(connected_elevator_info@, call_button) as int,
        ),
        actions@ == assignment(
            connected_elevator_info@.local_id,
            owner_of(connected_elevator_info@, call_button),
            call_button,
        ),
{
    let local_id: usize = connected_elevator_info.local_id();
    let owner: usize = if call_button.call == CAB {
        local_id
    } else {
        find_lowest_cost_id(connected_elevator_info.clone(), call_button)
    };
    proof {
        let fleet = connected_elevator_info@;
        assert(is_owner(fleet, call_button, owner as int));
        lemma_owner_is_unique(
            fleet,
            call_button,
            owner as int,
            owner_of(fleet, call_button) as int,
        );
    }
    let mut actions: Vec<RouterAction> = Vec::new();
    if owner == local_id {
        actions.push(RouterAction::AssignLocally { button: call_button });
    } else {
        actions.push(RouterAction::Broadcast { owner, button: call_button });
        actions.push(RouterAction::SetPending { should_set: true, id: owner, button: call_button });
        actions.push(RouterAction::CheckLater { id: owner, button: call_button });
    }
    assert(actions@ =~= assignment(local_id, owner, call_button));
    actions
}

/// Decides, when the check of the order `(id, button)` is due, whether the
/// order comes back, and returns what is to be done for it.
pub fn check_pending(connected_elevator_info: &ConnectedElevatorInfo, id: usize, button: CallButton) -> (actions:
    Vec<RouterAction>)
    requires
        connected_elevator_info.wf(),
        id < connected_elevator_info@.slots.len(),
        button.valid(connected_elevator_info@.n_floors()),
    ensures
        actions@ == check_result(connected_elevator_info@, id, button),
{
    let mut actions: Vec<RouterAction> = Vec::new();
    if !connected_elevator_info.is_active(id, button) {
        actions.push(RouterAction::AssignLocally { button });
        actions.push(RouterAction::SetPending { should_set: false, id, button });
    }
    assert(actions@ =~= check_result(connected_elevator_info@, id, button));
    actions
}

/// The owner of an order is unique: the fleet view and the button decide it.
pub proof fn lemma_owner_is_unique(fleet: FleetView, button: CallButton, first: int, second: int)
    requires
        is_owner(fleet, button, first),
        is_owner(fleet, button, second),
    ensures
        first == second,
{
}

} // verus!
