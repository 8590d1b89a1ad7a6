use elevator::local_elevator::elevio::poll::CallButton;
use elevator::local_elevator::elevio::elev::{DIRN_DOWN, DIRN_STOP, DIRN_UP};
use elevator::local_elevator::fsm::direction_decider::{
    choose_direction, order_above, order_below, should_stop,
};
use elevator::local_elevator::fsm::elevatorfsm::{Elevator, ElevatorInfo, State};
use elevator::local_elevator::fsm::order_list::OrderList;

#[test]
fn it_finds_order_above() {
    let mut order_list = OrderList::new(5);
    order_list.set_active(CallButton { floor: 3, call: 0 });
    order_list.set_active(CallButton { floor: 1, call: 2 });
    assert!(order_above(&order_list, 1));
}

#[test]
fn it_finds_order_in_the_top() {
    let mut order_list = OrderList::new(5);
    order_list.set_active(CallButton { floor: 4, call: 2 });
    assert!(order_above(&order_list, 1));
}

#[test]
fn it_finds_order_in_the_bottom() {
    let mut order_list = OrderList::new(5);
    order_list.set_active(CallButton { floor: 0, call: 2 });
    assert!(order_below(&order_list, 1));
}

#[test]
fn it_finds_order_below() {
    let mut order_list = OrderList::new(5);
    order_list.set_active(CallButton { floor: 3, call: 0 });
    order_list.set_active(CallButton { floor: 0, call: 2 });
    assert!(order_below(&order_list, 1));
}

#[test]
fn it_finds_no_order_below() {
    let mut order_list = OrderList::new(5);
    order_list.set_active(CallButton { floor: 3, call: 0 });
    order_list.set_active(CallButton { floor: 4, call: 2 });
    assert!(!order_below(&order_list, 2));
}

#[test]
fn it_finds_no_order_above() {
    let mut order_list = OrderList::new(5);
    order_list.set_active(CallButton { floor: 1, call: 0 });
    order_list.set_active(CallButton { floor: 0, call: 1 });
    assert!(!order_above(&order_list, 3));
}

fn elevator_at(floor: u8, dirn: u8, active: &[(u8, u8)]) -> Elevator {
    let mut orders = OrderList::new(5);
    for (f, c) in active {
        orders.set_active(CallButton { floor: *f, call: *c });
    }
    Elevator::create_simulation_elevator(ElevatorInfo {
        id: 0,
        state: State::Idle,
        dirn,
        floor,
        responsible_orders: orders,
    })
}

#[test]
fn at_the_lowest_floor_orders_above_mean_up() {
    for dirn in [DIRN_STOP, DIRN_UP, DIRN_DOWN] {
        let mut fsm = elevator_at(0, dirn, &[(3, 1)]);
        assert_eq!(choose_direction(&mut fsm), DIRN_UP);
    }
}

#[test]
fn at_the_highest_floor_orders_below_mean_down() {
    for dirn in [DIRN_STOP, DIRN_UP, DIRN_DOWN] {
        let mut fsm = elevator_at(4, dirn, &[(1, 0)]);
        assert_eq!(choose_direction(&mut fsm), DIRN_DOWN);
    }
}

#[test]
fn without_orders_the_elevator_stops() {
    for dirn in [DIRN_STOP, DIRN_UP, DIRN_DOWN] {
        let mut fsm = elevator_at(0, dirn, &[]);
        assert_eq!(choose_direction(&mut fsm), DIRN_STOP);
    }
}

#[test]
fn direction_is_kept_while_orders_remain_ahead() {
    let orders = [(0u8, 2u8), (4, 2)];
    let mut going_up = elevator_at(2, DIRN_UP, &orders);
    assert_eq!(choose_direction(&mut going_up), DIRN_UP);
    let mut going_down = elevator_at(2, DIRN_DOWN, &orders);
    assert_eq!(choose_direction(&mut going_down), DIRN_DOWN);
    let mut standing = elevator_at(2, DIRN_STOP, &orders);
    assert_eq!(choose_direction(&mut standing), DIRN_DOWN);
}

#[test]
fn unknown_direction_means_stop() {
    let mut fsm = elevator_at(2, 7, &[(0, 2), (4, 2)]);
    assert_eq!(choose_direction(&mut fsm), DIRN_STOP);
    assert!(should_stop(&mut fsm));
}

#[test]
fn it_stops_at_the_farthest_order_against_its_direction() {
    // Going up, the only order at floor 3 asks for a ride down.
    let mut fsm = elevator_at(3, DIRN_UP, &[(3, 1)]);
    assert!(should_stop(&mut fsm));
    // Going down, the only order at floor 1 asks for a ride up.
    let mut fsm = elevator_at(1, DIRN_DOWN, &[(1, 0)]);
    assert!(should_stop(&mut fsm));
}

#[test]
fn it_passes_an_order_against_its_direction_while_orders_remain_ahead() {
    let mut fsm = elevator_at(2, DIRN_UP, &[(2, 1), (4, 2)]);
    assert!(!should_stop(&mut fsm));
    let mut fsm = elevator_at(2, DIRN_DOWN, &[(2, 0), (0, 2)]);
    assert!(!should_stop(&mut fsm));
}

#[test]
fn it_stops_for_cab_and_directional_orders() {
    let mut fsm = elevator_at(2, DIRN_UP, &[(2, 2), (4, 2)]);
    assert!(should_stop(&mut fsm));
    let mut fsm = elevator_at(2, DIRN_UP, &[(2, 0), (4, 2)]);
    assert!(should_stop(&mut fsm));
    let mut fsm = elevator_at(2, DIRN_DOWN, &[(2, 1), (0, 2)]);
    assert!(should_stop(&mut fsm));
}

#[test]
fn pending_orders_do_not_count_as_orders_ahead() {
    let mut order_list = OrderList::new(5);
    order_list.set_pending(true, CallButton { floor: 4, call: 0 });
    order_list.set_pending(true, CallButton { floor: 0, call: 1 });
    assert!(!order_above(&order_list, 2));
    assert!(!order_below(&order_list, 2));
}

#[test]
fn floors_beyond_the_building_have_nothing_above() {
    let mut order_list = OrderList::new(5);
    order_list.set_active(CallButton { floor: 4, call: 0 });
    assert!(!order_above(&order_list, 4));
    assert!(!order_above(&order_list, 200));
    assert!(order_below(&order_list, 200));
}
