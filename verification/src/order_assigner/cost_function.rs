//! The cost of giving an order to an elevator: the time the elevator needs,
//! by simulation, until it is idle again.
use crate::global_elevator_info::connected_elevators::{ConnectedElevatorInfo, FleetView};
use crate::local_elevator::elevio::elev::{DIRN_DOWN, DIRN_UP};
use crate::local_elevator::elevio::poll::CallButton;
use crate::local_elevator::fsm::direction_decider::{
    orders_above,
    orders_below,
    queue_active_above,
    queue_active_below,
    stops_at,
};
use crate::local_elevator::fsm::elevatorfsm::{
    lemma_active_floor_is_ahead,
    lemma_step_preserves_wf,
    step,
    Elevator,
    ElevatorInfo,
    ElevatorInfoView,
    Event,
    State,
};
use crate::local_elevator::fsm::order_list::{OrderListView, OrderType};
use crate::util::constants::DOOR_OPEN_TIME;
use vstd::prelude::*;

verus! {

/// Seconds that an elevator takes from one floor to the next.
pub const TRAVEL_TIME: usize = 2;

/// The floor that a moving elevator reaches next: one down if it moves down,
/// else one up.
pub open spec fn next_floor(s: ElevatorInfoView) -> int {
    if s.dirn == DIRN_DOWN {
        s.floor - 1
    } else {
        s.floor + 1
    }
}

/// The elevator cannot take an order now: its cost is infinite.
pub open spec fn unavailable(s: ElevatorInfoView) -> bool {
    ||| s.state == State::Obstructed
    ||| s.state == State::ObstrTimedOut
    ||| s.state == State::MovTimedOut
    ||| s.state == State::Initializing
}

/// The elevator can be simulated: it is well formed and, if it moves, the
/// floor that it reaches next exists.
pub open spec fn can_simulate(s: ElevatorInfoView) -> bool {
    &&& s.wf()
    &&& (s.state == State::Moving ==> 0 <= next_floor(s) < s.orders.n_floors())
}

/// The event that the simulation feeds to the elevator: a moving elevator
/// arrives at the next floor, the door of any other times out.
pub open spec fn simulated_event(s: ElevatorInfoView) -> Event {
    if s.state == State::Moving {
        Event::OnFloorArrival { floor: next_floor(s) as u8 }
    } else {
        Event::OnDoorTimeOut
    }
}

/// The elevator one simulated event later.
pub open spec fn simulated_step(s: ElevatorInfoView) -> ElevatorInfoView {
    step(s, simulated_event(s)).next
}

/// Seconds that pass until the simulated event happens.
pub open spec fn step_cost(s: ElevatorInfoView) -> nat {
    if s.state == State::Moving {
        TRAVEL_TIME as nat
    } else if s.state == State::DoorOpen {
        DOOR_OPEN_TIME as nat
    } else {
        0
    }
}

/// Number of floors below `upto` with an `Active` order.
pub open spec fn busy_floors(orders: OrderListView, upto: nat) -> nat
    decreases upto,
{
    if upto == 0 {
        0
    } else {
        busy_floors(orders, (upto - 1) as nat) + if orders.active_at(upto - 1) {
            1nat
        } else {
            0nat
        }
    }
}

/// A bound on the simulated events that the elevator still has before it is
/// idle, by which the simulation is seen to end.
///
/// Every floor with an `Active` order counts 300, an open door 260, and a
/// moving elevator the floors that are left in its direction, or 270 if no
/// order lies ahead of it. A moving elevator comes nearer to the end of the
/// shaft with every floor that it passes. When it stops, a floor is served
/// and counts no more, which outweighs the open door; only an elevator that
/// had no order ahead may serve none, and it stops at once. When the door
/// closes, no floor counts more than before, and the elevator that sets off
/// has an order ahead.
pub open spec fn events_left(s: ElevatorInfoView) -> nat {
    300 * busy_floors(s.orders, s.orders.n_floors()) + if s.state == State::DoorOpen {
        260nat
    } else if s.state == State::Moving {
        if !s.order_ahead() {
            270nat
        } else if s.dirn == DIRN_UP {
            (s.orders.n_floors() - 1 - s.floor) as nat
        } else {
            s.floor as nat
        }
    } else {
        0nat
    }
}

/// Seconds until the simulated elevator is idle: nothing for an idle one,
/// else the time to its next event and the time from there.
pub open spec fn time_from(s: ElevatorInfoView) -> nat
    decreases events_left(s),
    when can_simulate(s) && !unavailable(s)
    via time_from_decreases
{
    if s.state == State::Idle {
        0
    } else {
        step_cost(s) + time_from(simulated_step(s))
    }
}

#[via_fn]
proof fn time_from_decreases(s: ElevatorInfoView) {
    if s.state != State::Idle {
        lemma_simulation_advances(s);
    }
}

/// The cost of giving the order of `button` to the elevator `s`: infinite,
/// written `usize::MAX`, if the elevator cannot take an order now; else the
/// seconds that the elevator, with the order accepted, needs until it is
/// idle.
pub open spec fn cost(s: ElevatorInfoView, button: CallButton) -> nat {
    let accepted = step(s, Event::OnNewOrder { btn: button }).next;
    if unavailable(accepted) {
        usize::MAX as nat
    } else {
        time_from(accepted)
    }
}

/// Clearing a floor takes it out of the count of busy floors, if it was in.
pub proof fn lemma_clearing_frees_floor(orders: OrderListView, floor: int, upto: nat)
    requires
        orders.wf(),
        0 <= floor < orders.n_floors(),
        upto <= orders.n_floors(),
    ensures
        busy_floors(orders.cleared_floor(floor), upto) == busy_floors(orders, upto) - (if floor
            < upto && orders.active_at(floor) {
            1int
        } else {
            0int
        }),
        busy_floors(orders, upto) <= upto,
    decreases upto,
{
    if upto > 0 {
        lemma_clearing_frees_floor(orders, floor, (upto - 1) as nat);
        let cleared = orders.cleared_floor(floor);
        if upto - 1 != floor {
            assert(cleared.active_at(upto - 1) == orders.active_at(upto - 1));
        } else {
            assert(!cleared.active_at(upto - 1));
        }
    }
}

/// An `Active` order above `floor` is an `Active` order at some floor above.
pub proof fn lemma_order_above_is_at_a_floor(orders: OrderListView, floor: int) -> (at: int)
    requires
        orders.wf(),
        0 <= floor,
        orders_above(orders, floor),
    ensures
        floor < at < orders.n_floors(),
        orders.active_at(at),
{
    if queue_active_above(orders.up, floor) {
        choose|i: int| floor < i < orders.up.len() && #[trigger] orders.up[i] == OrderType::Active
    } else if queue_active_above(orders.down, floor) {
        choose|i: int|
            floor < i < orders.down.len() && #[trigger] orders.down[i] == OrderType::Active
    } else {
        choose|i: int|
            floor < i < orders.inside.len() && #[trigger] orders.inside[i] == OrderType::Active
    }
}

/// An `Active` order below `floor` is an `Active` order at some floor below.
pub proof fn lemma_order_below_is_at_a_floor(orders: OrderListView, floor: int) -> (at: int)
    requires
        orders.wf(),
        orders_below(orders, floor),
    ensures
        0 <= at < floor,
        at < orders.n_floors(),
        orders.active_at(at),
{
    if queue_active_below(orders.up, floor) {
        choose|i: int|
            0 <= i < floor && i < orders.up.len() && #[trigger] orders.up[i] == OrderType::Active
    } else if queue_active_below(orders.down, floor) {
        choose|i: int|
            0 <= i < floor && i < orders.down.len() && #[trigger] orders.down[i]
                == OrderType::Active
    } else {
        choose|i: int|
            0 <= i < floor && i < orders.inside.len() && #[trigger] orders.inside[i]
                == OrderType::Active
    }
}

/// One simulated event brings the elevator nearer to being idle: it can
/// still be simulated afterwards, and fewer events are left.
pub proof fn lemma_simulation_advances(s: ElevatorInfoView)
    requires
        can_simulate(s),
        !unavailable(s),
        s.state != State::Idle,
    ensures
        can_simulate(simulated_step(s)),
        !unavailable(simulated_step(s)),
        events_left(simulated_step(s)) < events_left(s),
        simulated_event(s).valid(s.orders.n_floors()),
{
    let n = s.orders.n_floors();
    let next = simulated_step(s);
    lemma_step_preserves_wf(s, simulated_event(s));
    if s.state == State::DoorOpen {
        let floor = s.floor as int;
        lemma_clearing_frees_floor(s.orders, floor, n);
        assert(next.orders == s.orders.cleared_floor(floor));
        if next.state == State::Moving {
            if next.dirn == DIRN_UP {
                let at = lemma_order_above_is_at_a_floor(next.orders, floor);
            } else {
                let at = lemma_order_below_is_at_a_floor(next.orders, floor);
            }
        }
    } else {
        let floor = next_floor(s);
        assert(next.floor == floor);
        lemma_clearing_frees_floor(s.orders, floor, n);
        if stops_at(s.orders, s.dirn, floor) {
            assert(next.orders == s.orders.cleared_floor(floor));
            if s.order_ahead() {
                if s.dirn == DIRN_UP {
                    let at = lemma_order_above_is_at_a_floor(s.orders, s.floor as int);
                    if at > floor {
                        lemma_active_floor_is_ahead(s.orders, floor, at);
                    }
                } else {
                    let at = lemma_order_below_is_at_a_floor(s.orders, s.floor as int);
                    if at < floor {
                        lemma_active_floor_is_ahead(s.orders, floor, at);
                    }
                }
                assert(s.orders.active_at(floor));
            }
        } else {
            assert(next.orders == s.orders);
            if s.dirn == DIRN_UP {
                let at = lemma_order_above_is_at_a_floor(s.orders, floor);
                lemma_active_floor_is_ahead(s.orders, s.floor as int, at);
            } else {
                let at = lemma_order_below_is_at_a_floor(s.orders, floor);
                lemma_active_floor_is_ahead(s.orders, s.floor as int, at);
            }
        }
    }
}

/// Every elevator that the state machine reaches from its start can be
/// simulated.
pub proof fn lemma_reachable_can_simulate(s: ElevatorInfoView)
    requires
        s.inv(),
    ensures
        can_simulate(s),
{
    if s.state == State::Moving {
        if s.dirn == DIRN_UP {
            let at = lemma_order_above_is_at_a_floor(s.orders, s.floor as int);
        } else {
            let at = lemma_order_below_is_at_a_floor(s.orders, s.floor as int);
        }
    }
}

/// Largest number of simulated events that an elevator can have left.
pub open spec fn max_events() -> nat {
    300 * 255 + 270
}

/// The simulated time is bounded: every event takes at most
/// [`DOOR_OPEN_TIME`] seconds, and at most [`max_events`] events are left.
pub proof fn lemma_time_is_bounded(s: ElevatorInfoView)
    requires
        can_simulate(s),
        !unavailable(s),
    ensures
        time_from(s) <= 3 * events_left(s),
        events_left(s) <= max_events(),
    decreases events_left(s),
{
    lemma_clearing_frees_floor(s.orders, 0, s.orders.n_floors());
    if s.state != State::Idle {
        lemma_simulation_advances(s);
        lemma_time_is_bounded(simulated_step(s));
    }
}

/// Accepting an order leaves an elevator that can be simulated one that can.
pub proof fn lemma_accepted_can_simulate(s: ElevatorInfoView, button: CallButton)
    requires
        can_simulate(s),
        button.valid(s.orders.n_floors()),
    ensures
        can_simulate(step(s, (Event::OnNewOrder { btn: button })).next),
{
    let event = Event::OnNewOrder { btn: button };
    let next = step(s, event).next;
    lemma_step_preserves_wf(s, event);
    if s.state == State::Idle && s.floor != button.floor {
        assert(next.orders.active_at(button.floor as int));
        lemma_active_floor_is_ahead(next.orders, s.floor as int, button.floor as int);
        if next.dirn == DIRN_UP {
            let at = lemma_order_above_is_at_a_floor(next.orders, s.floor as int);
        } else {
            let at = lemma_order_below_is_at_a_floor(next.orders, s.floor as int);
        }
    }
}

/// Estimates the time until the simulated elevator `fsm` reaches its next
/// event, and lets the event happen.
pub fn simulate_next_step(fsm: &mut Elevator) -> (seconds: usize)
    requires
        can_simulate(old(fsm)@),
        !unavailable(old(fsm)@),
    ensures
        final(fsm)@ == (if old(fsm)@.state == State::Idle {
            old(fsm)@
        } else {
            simulated_step(old(fsm)@)
        }),
        seconds == step_cost(old(fsm)@),
{
    match fsm.get_state() {
        State::Moving => {
            let floor: u8 = if fsm.get_dirn() == DIRN_DOWN {
                fsm.get_floor() - 1
            } else {
                fsm.get_floor() + 1
            };
            let _ = fsm.on_event(Event::OnFloorArrival { floor });
            TRAVEL_TIME
        },
        State::DoorOpen => {
            let _ = fsm.on_event(Event::OnDoorTimeOut);
            DOOR_OPEN_TIME as usize
        },
        _ => 0,
    }
}

/// The time that the elevator `elev_info` needs until it is idle once it
/// has been given the order of `button`; `usize::MAX` if it cannot take an
/// order now. The elevator is simulated on a copy: nothing is sent to any
/// hardware.
pub fn time_to_idle(elev_info: ElevatorInfo, button: CallButton) -> (duration: usize)
    requires
        can_simulate(elev_info@),
        button.valid(elev_info@.orders.n_floors()),
    ensures
        duration == cost(elev_info@, button),
{
    let ghost start = elev_info@;
    let mut elev: Elevator = Elevator::create_simulation_elevator(elev_info);
    let _ = elev.on_event(Event::OnNewOrder { btn: button });
    let state: State = elev.get_state();
    if state == State::Obstructed || state == State::ObstrTimedOut || state == State::MovTimedOut
        || state == State::Initializing {
        return usize::MAX;
    }
    proof {
        lemma_accepted_can_simulate(start, button);
        lemma_time_is_bounded(elev@);
    }
    let ghost accepted = elev@;
    let mut duration: usize = 0;
    while elev.get_state() != State::Idle
        invariant
            can_simulate(elev@),
            !unavailable(elev@),
            duration + time_from(elev@) == time_from(accepted),
            time_from(accepted) <= 3 * max_events(),
        decreases events_left(elev@),
    {
        proof {
            lemma_simulation_advances(elev@);
        }
        let seconds: usize = simulate_next_step(&mut elev);
        duration += seconds;
    }
    duration
}

/// The cost of giving the order of `button` to the elevator `id` of the
/// fleet: infinite, written `usize::MAX`, for an unknown elevator.
pub open spec fn slot_cost(fleet: FleetView, id: int, button: CallButton) -> nat {
    match fleet.slots[id] {
        Some(e) => cost(e, button),
        None => usize::MAX as nat,
    }
}

/// Every known elevator of the fleet can be simulated.
pub open spec fn all_can_simulate(fleet: FleetView) -> bool {
    forall|i: int|
        0 <= i < fleet.slots.len() ==> (#[trigger] fleet.slots[i] matches Some(e) ==> can_simulate(e))
}

/// No elevator of the fleet can take the order of `button` now.
pub open spec fn nobody_available(fleet: FleetView, button: CallButton) -> bool {
    forall|i: int|
        0 <= i < fleet.slots.len() ==> #[trigger] slot_cost(fleet, i, button) == usize::MAX
}

/// `owner` is the elevator to give the order of `button` to: it can take
/// the order, none is cheaper, and none of a lower identity is as cheap.
pub open spec fn is_cheapest(fleet: FleetView, button: CallButton, owner: int) -> bool {
    &&& 0 <= owner < fleet.slots.len()
    &&& slot_cost(fleet, owner, button) < usize::MAX
    &&& forall|i: int|
        0 <= i < fleet.slots.len() ==> slot_cost(fleet, owner, button) <= #[trigger] slot_cost(
            fleet,
            i,
            button,
        )
    &&& forall|i: int|
        0 <= i < owner ==> slot_cost(fleet, owner, button) < #[trigger] slot_cost(fleet, i, button)
}

/// An elevator that can take an order has a finite cost.
pub proof fn lemma_cost_is_finite(s: ElevatorInfoView, button: CallButton)
    requires
        can_simulate(s),
        button.valid(s.orders.n_floors()),
    ensures
        !unavailable(step(s, (Event::OnNewOrder { btn: button })).next) ==> cost(s, button)
            < usize::MAX,
{
    let accepted = step(s, Event::OnNewOrder { btn: button }).next;
    if !unavailable(accepted) {
        lemma_accepted_can_simulate(s, button);
        lemma_time_is_bounded(accepted);
    }
}

/// Tells whether the elevator `info` can be simulated.
pub fn is_simulable(info: &ElevatorInfo) -> (ok: bool)
    ensures
        ok == can_simulate(info@),
{
    if !info.is_wf() {
        return false;
    }
    if info.state == State::Moving {
        if info.dirn == DIRN_DOWN {
            info.floor >= 1
        } else {
            (info.floor as usize) + 1 < info.responsible_orders.num_floors()
        }
    } else {
        true
    }
}

/// Tells whether every known elevator of the fleet can be simulated.
pub fn all_simulable(connected_elevator_info: &ConnectedElevatorInfo) -> (ok: bool)
    ensures
        ok == all_can_simulate(connected_elevator_info@),
{
    let len: usize = connected_elevator_info.max_number_of_elevators();
    let mut i: usize = 0;
    while i < len
        invariant
            i <= len,
            len == connected_elevator_info@.slots.len(),
            forall|j: int|
                0 <= j < i ==> (#[trigger] connected_elevator_info@.slots[j] matches Some(e)
                    ==> can_simulate(e)),
        decreases len - i,
    {
        match connected_elevator_info.elevator(i) {
            Some(info) => {
                if !is_simulable(info) {
                    return false;
                }
            },
            None => {},
        }
        i += 1;
    }
    true
}

/// Picks the elevator that serves the hall order of `button_to_add`: among
/// the known elevators that can take an order now, the one that is idle
/// again soonest with the order added, and of several such the one of the
/// lowest identity. If none can take an order, the local elevator.
pub fn find_lowest_cost_id(
    connected_elevator_info: ConnectedElevatorInfo,
    button_to_add: CallButton,
) -> (lowest_cost_id: usize)
    requires
        connected_elevator_info.wf(),
        all_can_simulate(connected_elevator_info@),
        button_to_add.valid(connected_elevator_info@.n_floors()),
    ensures
        nobody_available(connected_elevator_info@, button_to_add) ==> lowest_cost_id
            == connected_elevator_info@.local_id,
        !nobody_available(connected_elevator_info@, button_to_add) ==> is_cheapest(
            connected_elevator_info@,
            button_to_add,
            lowest_cost_id as int,
        ),
{
    let ghost fleet = connected_elevator_info@;
    let len: usize = connected_elevator_info.max_number_of_elevators();
    let mut lowest_cost: usize = usize::MAX;
    let mut lowest_cost_id: usize = connected_elevator_info.local_id();
    let mut i: usize = 0;
    while i < len
        invariant
            i <= len,
            fleet == connected_elevator_info@,
            len == fleet.slots.len(),
            fleet.wf(),
            all_can_simulate(fleet),
            button_to_add.valid(fleet.n_floors()),
            lowest_cost == usize::MAX ==> lowest_cost_id == fleet.local_id,
            lowest_cost == usize::MAX ==> forall|j: int|
                0 <= j < i ==> #[trigger] slot_cost(fleet, j, button_to_add) == usize::MAX,
            lowest_cost < usize::MAX ==> {
                &&& lowest_cost_id < i
                &&& slot_cost(fleet, lowest_cost_id as int, button_to_add) == lowest_cost
                &&& forall|j: int|
                    0 <= j < i ==> lowest_cost <= #[trigger] slot_cost(fleet, j, button_to_add)
                &&& forall|j: int|
                    0 <= j < lowest_cost_id ==> lowest_cost < #[trigger] slot_cost(
                        fleet,
                        j,
                        button_to_add,
                    )
            },
        decreases len - i,
    {
        match connected_elevator_info.elevator(i) {
            Some(val) => {
                proof {
                    lemma_cost_is_finite(val@, button_to_add);
                }
                let elev_cost: usize = time_to_idle(val.clone(), button_to_add);
                if elev_cost < lowest_cost {
                    lowest_cost_id = i;
                    lowest_cost = elev_cost;
                }
            },
            None => {},
        }
        i += 1;
    }
    lowest_cost_id
}

} // verus!
