//! Where to go next and when to stop: a SCAN policy that keeps its direction
//! while orders remain ahead.
use crate::local_elevator::elevio::elev::{DIRN_DOWN, DIRN_STOP, DIRN_UP};
use crate::local_elevator::fsm::elevatorfsm::Elevator;
use crate::local_elevator::fsm::order_list::{OrderList, OrderListView, OrderType};
use vstd::prelude::*;

verus! {

/// Some slot of `queue` strictly above `floor` is `Active`.
pub open spec fn queue_active_above(queue: Seq<OrderType>, floor: int) -> bool {
    exists|i: int| floor < i < queue.len() && #[trigger] queue[i] == OrderType::Active
}

/// Some slot of `queue` strictly below `floor` is `Active`.
pub open spec fn queue_active_below(queue: Seq<OrderType>, floor: int) -> bool {
    exists|i: int| 0 <= i < floor && i < queue.len() && #[trigger] queue[i] == OrderType::Active
}

/// Some order of any kind is `Active` strictly above `floor`.
pub open spec fn orders_above(orders: OrderListView, floor: int) -> bool {
    ||| queue_active_above(orders.up, floor)
    ||| queue_active_above(orders.down, floor)
    ||| queue_active_above(orders.inside, floor)
}

/// Some order of any kind is `Active` strictly below `floor`.
pub open spec fn orders_below(orders: OrderListView, floor: int) -> bool {
    ||| queue_active_below(orders.up, floor)
    ||| queue_active_below(orders.down, floor)
    ||| queue_active_below(orders.inside, floor)
}

/// The direction policy. An elevator that was going up keeps going up while
/// orders remain above, else turns; one that was going down keeps going down
/// while orders remain below, else turns; one that stood still prefers down.
/// Without orders elsewhere it stops.
pub open spec fn direction_for(dirn: u8, above: bool, below: bool) -> u8 {
    if dirn == DIRN_UP {
        if above {
            DIRN_UP
        } else if below {
            DIRN_DOWN
        } else {
            DIRN_STOP
        }
    } else if dirn == DIRN_DOWN || dirn == DIRN_STOP {
        if below {
            DIRN_DOWN
        } else if above {
            DIRN_UP
        } else {
            DIRN_STOP
        }
    } else {
        DIRN_STOP
    }
}

/// Direction that an elevator at `floor`, last moving in `dirn`, takes with
/// the orders `orders`.
pub open spec fn chosen_direction(orders: OrderListView, dirn: u8, floor: int) -> u8 {
    direction_for(dirn, orders_above(orders, floor), orders_below(orders, floor))
}

/// An elevator moving in `dirn` stops at `floor` if a cab order or a hall
/// order of its direction is `Active` there, or if no `Active` order lies
/// further in its direction. One that moves neither up nor down stops.
pub open spec fn stops_at(orders: OrderListView, dirn: u8, floor: int) -> bool {
    if dirn == DIRN_DOWN {
        ||| orders.down[floor] == OrderType::Active
        ||| orders.inside[floor] == OrderType::Active
        ||| !orders_below(orders, floor)
    } else if dirn == DIRN_UP {
        ||| orders.up[floor] == OrderType::Active
        ||| orders.inside[floor] == OrderType::Active
        ||| !orders_above(orders, floor)
    } else {
        true
    }
}

/// Picks the direction in which `fsm` goes on from its floor.
pub fn choose_direction(fsm: &mut Elevator) -> (dirn: u8)
    ensures
        *final(fsm) == *old(fsm),
        dirn == chosen_direction(old(fsm)@.orders, old(fsm)@.dirn, old(fsm)@.floor as int),
{
    let dirn: u8 = fsm.get_dirn();
    let floor: usize = fsm.get_floor() as usize;
    let orders_above: bool = order_above(fsm.orders(), floor);
    let orders_below: bool = order_below(fsm.orders(), floor);
    if dirn == DIRN_UP {
        if orders_above {
            DIRN_UP
        } else if orders_below {
            DIRN_DOWN
        } else {
            DIRN_STOP
        }
    } else if dirn == DIRN_DOWN || dirn == DIRN_STOP {
        if orders_below {
            DIRN_DOWN
        } else if orders_above {
            DIRN_UP
        } else {
            DIRN_STOP
        }
    } else {
        DIRN_STOP
    }
}

/// Tells whether `fsm`, moving, has to stop at the floor it has just reached.
pub fn should_stop(fsm: &mut Elevator) -> (stop: bool)
    requires
        old(fsm).orders_wf(),
        old(fsm)@.floor < old(fsm)@.orders.n_floors(),
    ensures
        *final(fsm) == *old(fsm),
        stop == stops_at(old(fsm)@.orders, old(fsm)@.dirn, old(fsm)@.floor as int),
{
    let dirn: u8 = fsm.get_dirn();
    let floor: usize = fsm.get_floor() as usize;
    let order_list: &OrderList = fsm.orders();
    if dirn == DIRN_DOWN {
        order_list.down_queue[floor] == OrderType::Active || order_list.inside_queue[floor]
            == OrderType::Active || !order_below(order_list, floor)
    } else if dirn == DIRN_UP {
        order_list.up_queue[floor] == OrderType::Active || order_list.inside_queue[floor]
            == OrderType::Active || !order_above(order_list, floor)
    } else {
        true
    }
}

/// Tells whether any order of `order_list` is `Active` strictly below `floor`.
pub fn order_below(order_list: &OrderList, floor: usize) -> (found: bool)
    ensures
        found == orders_below(order_list@, floor as int),
{
    single_queue_order_below(&order_list.up_queue, floor) || single_queue_order_below(
        &order_list.down_queue,
        floor,
    ) || single_queue_order_below(&order_list.inside_queue, floor)
}

/// Tells whether any order of `order_list` is `Active` strictly above `floor`.
pub fn order_above(order_list: &OrderList, floor: usize) -> (found: bool)
    ensures
        found == orders_above(order_list@, floor as int),
{
    single_queue_order_above(&order_list.up_queue, floor) || single_queue_order_above(
        &order_list.down_queue,
        floor,
    ) || single_queue_order_above(&order_list.inside_queue, floor)
}

/// Tells whether a slot of `queue` strictly below `floor` is `Active`.
pub fn single_queue_order_below(queue: &Vec<OrderType>, floor: usize) -> (found: bool)
    ensures
        found == queue_active_below(queue@, floor as int),
{
    let end: usize = if floor < queue.len() { floor } else { queue.len() };
    let mut i: usize = 0;
    while i < end
        invariant
            i <= end,
            end <= queue.len(),
            end <= floor,
            end == floor || end == queue.len(),
            forall|j: int| 0 <= j < i ==> queue@[j] != OrderType::Active,
        decreases end - i,
    {
        if queue[i] == OrderType::Active {
            return true;
        }
        i += 1;
    }
    false
}

/// Tells whether a slot of `queue` strictly above `floor` is `Active`.
pub fn single_queue_order_above(queue: &Vec<OrderType>, floor: usize) -> (found: bool)
    ensures
        found == queue_active_above(queue@, floor as int),
{
    if floor >= queue.len() {
        return false;
    }
    let mut i: usize = floor + 1;
    while i < queue.len()
        invariant
            floor < i <= queue.len(),
            forall|j: int| floor < j < i ==> queue@[j] != OrderType::Active,
        decreases queue.len() - i,
    {
        if queue[i] == OrderType::Active {
            return true;
        }
        i += 1;
    }
    false
}

/// At the lowest floor nothing is below: with an `Active` order above, the
/// elevator goes up, and without any it stops, whatever way it went before.
pub proof fn lemma_direction_at_lowest_floor(orders: OrderListView, dirn: u8)
    requires
        orders.wf(),
        dirn == DIRN_UP || dirn == DIRN_DOWN || dirn == DIRN_STOP,
    ensures
        !orders_below(orders, 0),
        orders_above(orders, 0) ==> chosen_direction(orders, dirn, 0) == DIRN_UP,
        !orders_above(orders, 0) ==> chosen_direction(orders, dirn, 0) == DIRN_STOP,
{
}

/// At the highest floor nothing is above: with an `Active` order below, the
/// elevator goes down, and without any it stops, whatever way it went
/// before.
pub proof fn lemma_direction_at_highest_floor(orders: OrderListView, dirn: u8)
    requires
        orders.wf(),
        orders.n_floors() > 0,
        dirn == DIRN_UP || dirn == DIRN_DOWN || dirn == DIRN_STOP,
    ensures
        ({
            let top = orders.n_floors() - 1;
            &&& !orders_above(orders, top)
            &&& orders_below(orders, top) ==> chosen_direction(orders, dirn, top) == DIRN_DOWN
            &&& !orders_below(orders, top) ==> chosen_direction(orders, dirn, top) == DIRN_STOP
        }),
{
}

/// The elevator stops at the farthest `Active` order in its direction: with
/// no `Active` order further on it stops at `floor`, whatever the slots of
/// `floor` hold.
pub proof fn lemma_stops_at_farthest_order(orders: OrderListView, dirn: u8, floor: int)
    requires
        dirn == DIRN_UP ==> !orders_above(orders, floor),
        dirn == DIRN_DOWN ==> !orders_below(orders, floor),
    ensures
        stops_at(orders, dirn, floor),
{
}

} // verus!
