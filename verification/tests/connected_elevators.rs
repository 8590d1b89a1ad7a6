use elevator::global_elevator_info::connected_elevators::{
    assign_orders_locally, merge_remote_active, merge_remote_orders, ConnectedElevatorInfo,
    FleetUpdate,
};
use elevator::global_elevator_info::order_lights::light_commands;
use elevator::local_elevator::elevio::elev::{HardwareCommand, DIRN_DOWN, DIRN_UP};
use elevator::local_elevator::elevio::poll::CallButton;
use elevator::local_elevator::fsm::elevatorfsm::{ElevatorInfo, State};
use elevator::local_elevator::fsm::order_list::{OrderList, OrderType};

const MAX_NUM_ELEV: usize = 3;
const ELEV_NUM_FLOORS: u8 = 5;

fn snapshot(id: usize, state: State, floor: u8, active: &[(u8, u8)]) -> ElevatorInfo {
    let mut orders = OrderList::new(ELEV_NUM_FLOORS);
    for (f, c) in active {
        orders.set_active(CallButton { floor: *f, call: *c });
    }
    ElevatorInfo { id, state, dirn: DIRN_UP, floor, responsible_orders: orders }
}

fn create_remote_update_with_orders() -> Vec<ElevatorInfo> {
    let mut first = OrderList::new(ELEV_NUM_FLOORS);
    first.set_active(CallButton { floor: 0, call: 0 });
    first.set_active(CallButton { floor: 2, call: 0 });
    first.set_active(CallButton { floor: 3, call: 1 });
    let mut second = OrderList::new(ELEV_NUM_FLOORS);
    second.set_active(CallButton { floor: 1, call: 0 });
    second.set_active(CallButton { floor: 1, call: 1 });
    let elev_id_0: ElevatorInfo = ElevatorInfo {
        id: 0,
        state: State::Moving,
        dirn: DIRN_UP,
        floor: 3,
        responsible_orders: first,
    };
    let elev_id_1: ElevatorInfo = ElevatorInfo {
        id: 1,
        state: State::Moving,
        dirn: DIRN_DOWN,
        floor: 1,
        responsible_orders: second,
    };
    let mut remote_update: Vec<ElevatorInfo> = Vec::new();
    remote_update.push(elev_id_0);
    remote_update.push(elev_id_1);
    return remote_update;
}

fn create_empty_remote_update() -> Vec<ElevatorInfo> {
    let elev_id_0: ElevatorInfo = ElevatorInfo {
        id: 0,
        state: State::Moving,
        dirn: DIRN_UP,
        floor: 3,
        responsible_orders: OrderList::new(ELEV_NUM_FLOORS),
    };
    let elev_id_1: ElevatorInfo = ElevatorInfo {
        id: 1,
        state: State::Moving,
        dirn: DIRN_DOWN,
        floor: 1,
        responsible_orders: OrderList::new(ELEV_NUM_FLOORS),
    };
    let mut remote_update: Vec<ElevatorInfo> = Vec::new();
    remote_update.push(elev_id_0);
    remote_update.push(elev_id_1);
    return remote_update;
}

fn local_elevator() -> ElevatorInfo {
    ElevatorInfo {
        id: 2,
        state: State::Moving,
        dirn: DIRN_UP,
        floor: 3,
        responsible_orders: OrderList::new(5),
    }
}

#[test]
fn it_updates_from_remote() {
    let remote_update: Vec<ElevatorInfo> = create_remote_update_with_orders();
    let mut global_elevator_info: ConnectedElevatorInfo =
        ConnectedElevatorInfo::new(local_elevator(), MAX_NUM_ELEV);
    global_elevator_info.update_remote_elevator_info(remote_update.clone());
    let mut is_identical = true;
    for elev in remote_update.iter().cloned() {
        let elev_id: usize = elev.get_id();
        if elev != global_elevator_info.get_connected_elevators()[elev_id].clone().unwrap() {
            is_identical = false;
        }
    }
    assert!(is_identical);
}

#[test]
fn it_correctly_sets_pending_in_remote_elevators() {
    let max_num_elev: usize = 10;
    let mut global_elevator_info: ConnectedElevatorInfo =
        ConnectedElevatorInfo::new(local_elevator(), max_num_elev);
    global_elevator_info.update_remote_elevator_info(create_empty_remote_update());
    global_elevator_info.set_to_pending(true, 0, CallButton { floor: 2, call: 1 });
    assert!(global_elevator_info.is_pending(0, CallButton { floor: 2, call: 1 }));
}

#[test]
fn it_correctly_updates_remote_pending_to_active() {
    let max_num_elev = 10;
    let mut global_elevator_info: ConnectedElevatorInfo =
        ConnectedElevatorInfo::new(local_elevator(), max_num_elev);
    let mut remote_update = create_empty_remote_update();
    global_elevator_info.update_remote_elevator_info(remote_update.clone());
    global_elevator_info.set_to_pending(true, 0, CallButton { floor: 2, call: 1 });
    remote_update[0].responsible_orders.set_active(CallButton { floor: 2, call: 1 });
    global_elevator_info.update_remote_elevator_info(remote_update.clone());
    assert!(global_elevator_info.is_active(0, CallButton { floor: 2, call: 1 }));
}

#[test]
fn it_correctly_updates_local() {
    let max_num_elev = 10;
    let mut global_elevator_info: ConnectedElevatorInfo =
        ConnectedElevatorInfo::new(local_elevator(), max_num_elev);

    let local_elev_info_2: ElevatorInfo = ElevatorInfo {
        id: 2,
        state: State::Moving,
        dirn: DIRN_UP,
        floor: 4,
        responsible_orders: OrderList::new(5),
    };

    global_elevator_info.update_local_elevator_info(local_elev_info_2.clone());
    assert_eq!(global_elevator_info.get_local_elevator_info().unwrap(), local_elev_info_2);
}

#[test]
fn it_does_not_overwrite_local() {
    let local_elev_info = local_elevator();
    // Attempt to overwrite local with 'bad' remote info
    let bad_remote_elev_info: ElevatorInfo = ElevatorInfo {
        id: 2,
        state: State::Idle,
        dirn: DIRN_UP,
        floor: 1,
        responsible_orders: OrderList::new(5),
    };
    let mut remote_update: Vec<ElevatorInfo> = Vec::new();
    remote_update.push(bad_remote_elev_info);
    let mut global_elevator_info: ConnectedElevatorInfo =
        ConnectedElevatorInfo::new(local_elev_info.clone(), 10);
    global_elevator_info.update_remote_elevator_info(remote_update);
    assert_eq!(global_elevator_info.get_local_elevator_info().unwrap(), local_elev_info);
}

#[test]
fn global_elevator_it_correctly_merges_remote_order_list() {
    let mut order_list = OrderList::new(ELEV_NUM_FLOORS);
    order_list.set_pending(true, CallButton { floor: 3, call: 0 });
    order_list.set_pending(true, CallButton { floor: 1, call: 2 });
    order_list.set_active(CallButton { floor: 0, call: 2 });

    // Check: Is merging the lists the same as adding orders?
    let mut order_list_to_compare = order_list.clone();
    order_list_to_compare.set_active(CallButton { floor: 1, call: 0 });
    order_list_to_compare.set_active(CallButton { floor: 0, call: 2 });

    let mut order_list_update = OrderList::new(ELEV_NUM_FLOORS);
    order_list_update.set_active(CallButton { floor: 1, call: 0 });
    order_list_update.set_active(CallButton { floor: 0, call: 2 });

    order_list = merge_remote_orders(order_list.clone(), order_list_update.clone());
    assert_eq!(order_list, order_list_to_compare);
}

#[test]
fn a_new_fleet_view_knows_only_the_local_elevator() {
    let fleet = ConnectedElevatorInfo::new(local_elevator(), MAX_NUM_ELEV);
    assert_eq!(fleet.local_id(), 2);
    assert_eq!(fleet.max_number_of_elevators(), 3);
    assert_eq!(fleet.num_floors(), 5);
    assert_eq!(
        fleet.get_connected_elevators(),
        vec![None, None, Some(local_elevator())]
    );
    assert!(!fleet.is_active(0, CallButton { floor: 0, call: 0 }));
    assert!(!fleet.is_pending(0, CallButton { floor: 0, call: 0 }));
}

#[test]
fn the_last_snapshot_of_a_peer_in_the_gossip_counts() {
    let mut fleet = ConnectedElevatorInfo::new(local_elevator(), MAX_NUM_ELEV);
    let older = snapshot(0, State::Moving, 1, &[(2, 0)]);
    let newer = snapshot(0, State::DoorOpen, 2, &[]);
    fleet.update_remote_elevator_info(vec![older, newer.clone()]);
    assert_eq!(fleet.get_connected_elevators()[0], Some(newer));
}

#[test]
fn a_pending_mark_survives_gossip_until_the_owner_confirms() {
    let button = CallButton { floor: 3, call: 1 };
    let mut fleet = ConnectedElevatorInfo::new(local_elevator(), MAX_NUM_ELEV);
    fleet.update_remote_elevator_info(vec![snapshot(1, State::Idle, 4, &[])]);
    fleet.set_to_pending(true, 1, button);
    fleet.update_remote_elevator_info(vec![snapshot(1, State::Idle, 4, &[])]);
    assert!(fleet.is_pending(1, button));
    assert!(!fleet.is_active(1, button));
    fleet.update_remote_elevator_info(vec![snapshot(1, State::Moving, 4, &[(3, 1)])]);
    assert!(fleet.is_active(1, button));
    fleet.update_remote_elevator_info(vec![snapshot(1, State::DoorOpen, 3, &[])]);
    assert!(!fleet.is_active(1, button));
    assert!(!fleet.is_pending(1, button));
}

#[test]
fn set_pending_never_overrides_active_and_can_be_taken_back() {
    let button = CallButton { floor: 3, call: 1 };
    let mut fleet = ConnectedElevatorInfo::new(local_elevator(), MAX_NUM_ELEV);
    fleet.update_remote_elevator_info(vec![snapshot(1, State::Moving, 4, &[(3, 1)])]);
    fleet.set_to_pending(true, 1, button);
    assert!(fleet.is_active(1, button));
    fleet.set_to_pending(false, 1, button);
    assert!(fleet.is_active(1, button));

    let other = CallButton { floor: 0, call: 0 };
    fleet.set_to_pending(true, 1, other);
    assert!(fleet.is_pending(1, other));
    fleet.set_to_pending(false, 1, other);
    assert!(!fleet.is_pending(1, other));
    assert_eq!(
        fleet.get_connected_elevators()[1].clone().unwrap().responsible_orders.up_queue[0],
        OrderType::NoOrder
    );
}

#[test]
fn nothing_is_marked_for_an_unknown_elevator() {
    let mut fleet = ConnectedElevatorInfo::new(local_elevator(), MAX_NUM_ELEV);
    fleet.set_to_pending(true, 0, CallButton { floor: 1, call: 0 });
    assert!(!fleet.is_pending(0, CallButton { floor: 1, call: 0 }));
    assert_eq!(fleet.get_connected_elevators()[0], None);
}

#[test]
fn merging_the_same_gossip_twice_changes_nothing_more() {
    let mut fleet = ConnectedElevatorInfo::new(local_elevator(), MAX_NUM_ELEV);
    fleet.update_remote_elevator_info(vec![
        snapshot(0, State::Idle, 0, &[]),
        snapshot(1, State::Moving, 2, &[(4, 0)]),
    ]);
    fleet.set_to_pending(true, 0, CallButton { floor: 2, call: 1 });
    fleet.set_to_pending(true, 1, CallButton { floor: 0, call: 0 });
    let gossip = vec![snapshot(1, State::Moving, 3, &[(0, 0), (4, 0)])];
    fleet.update_remote_elevator_info(gossip.clone());
    let once = fleet.get_connected_elevators();
    let lost_again = fleet.update_remote_elevator_info(gossip);
    assert_eq!(fleet.get_connected_elevators(), once);
    assert!(lost_again.is_empty());
}

#[test]
fn peer_crash_hands_its_hall_orders_over() {
    let mut fleet = ConnectedElevatorInfo::new(snapshot(0, State::Idle, 0, &[]), MAX_NUM_ELEV);
    let node_1 = snapshot(1, State::Idle, 4, &[]);
    let node_2 = snapshot(2, State::Moving, 2, &[(1, 0), (3, 1), (4, 2)]);
    let lost = fleet.update_remote_elevator_info(vec![node_1.clone(), node_2]);
    assert!(lost.is_empty());
    fleet.set_to_pending(true, 2, CallButton { floor: 0, call: 0 });

    let lost = fleet.update_remote_elevator_info(vec![node_1.clone()]);
    assert_eq!(
        lost,
        vec![
            CallButton { floor: 0, call: 0 },
            CallButton { floor: 1, call: 0 },
            CallButton { floor: 3, call: 1 },
        ]
    );
    assert_eq!(fleet.get_connected_elevators()[2], None);
    assert_eq!(fleet.get_connected_elevators()[1], Some(node_1.clone()));

    let lost = fleet.update_remote_elevator_info(vec![node_1]);
    assert!(lost.is_empty());
}

#[test]
fn a_peer_that_gives_up_hands_its_hall_orders_over_once() {
    let mut fleet = ConnectedElevatorInfo::new(snapshot(1, State::Idle, 0, &[]), MAX_NUM_ELEV);
    fleet.update_remote_elevator_info(vec![snapshot(0, State::Moving, 0, &[(4, 0)])]);

    let mut stalled = snapshot(0, State::MovTimedOut, 0, &[]);
    stalled.responsible_orders.set_pending(true, CallButton { floor: 4, call: 0 });
    let lost = fleet.update_remote_elevator_info(vec![stalled.clone()]);
    assert_eq!(lost, vec![CallButton { floor: 4, call: 0 }]);
    assert_eq!(fleet.get_connected_elevators()[0].clone().unwrap().state, State::MovTimedOut);

    let lost = fleet.update_remote_elevator_info(vec![stalled]);
    assert!(lost.is_empty());

    // The mark at floor 4 stays in the view: the peer never confirmed it.
    fleet.update_remote_elevator_info(vec![snapshot(0, State::Obstructed, 0, &[(2, 1)])]);
    let lost =
        fleet.update_remote_elevator_info(vec![snapshot(0, State::ObstrTimedOut, 0, &[(2, 1)])]);
    assert_eq!(lost, vec![CallButton { floor: 2, call: 1 }, CallButton { floor: 4, call: 0 }]);
}

#[test]
fn lights_show_the_hall_orders_of_all_and_the_cab_orders_of_the_local_elevator() {
    let local = snapshot(0, State::Moving, 0, &[(1, 0), (2, 2)]);
    let mut fleet = ConnectedElevatorInfo::new(local, MAX_NUM_ELEV);
    fleet.update_remote_elevator_info(vec![
        snapshot(1, State::Moving, 0, &[(3, 1), (4, 2)]),
        snapshot(2, State::Moving, 0, &[(1, 0), (0, 0)]),
    ]);
    fleet.set_to_pending(true, 1, CallButton { floor: 4, call: 1 });

    let mut expected = OrderList::new(ELEV_NUM_FLOORS);
    expected.set_active(CallButton { floor: 0, call: 0 });
    expected.set_active(CallButton { floor: 1, call: 0 });
    expected.set_active(CallButton { floor: 3, call: 1 });
    expected.set_active(CallButton { floor: 2, call: 2 });
    assert_eq!(fleet.get_orders_for_lights(), expected);
}

#[test]
fn hand_off_lights_the_button_at_the_observer() {
    // Node 1 sees node 0 accept the hall order up at floor 4.
    let button = CallButton { floor: 4, call: 0 };
    let mut fleet = ConnectedElevatorInfo::new(snapshot(1, State::Idle, 2, &[]), MAX_NUM_ELEV);
    fleet.update_remote_elevator_info(vec![snapshot(0, State::Idle, 2, &[])]);
    let before = fleet.get_orders_for_lights();
    fleet.update_remote_elevator_info(vec![snapshot(0, State::Moving, 2, &[(4, 0)])]);
    assert!(fleet.is_active(0, button));
    let after = fleet.get_orders_for_lights();
    assert_eq!(
        light_commands(&before, &after),
        vec![HardwareCommand::CallButtonLight { floor: 4, call: 0, on: true }]
    );
}

#[test]
fn light_commands_are_sent_only_for_lights_that_change() {
    let mut old_lights = OrderList::new(3);
    old_lights.set_active(CallButton { floor: 0, call: 0 });
    old_lights.set_active(CallButton { floor: 1, call: 2 });
    old_lights.set_pending(true, CallButton { floor: 2, call: 1 });
    let mut new_lights = OrderList::new(3);
    new_lights.set_active(CallButton { floor: 1, call: 2 });
    new_lights.set_active(CallButton { floor: 2, call: 1 });
    new_lights.set_active(CallButton { floor: 0, call: 2 });
    assert_eq!(
        light_commands(&old_lights, &new_lights),
        vec![
            HardwareCommand::CallButtonLight { floor: 0, call: 0, on: false },
            HardwareCommand::CallButtonLight { floor: 0, call: 2, on: true },
            HardwareCommand::CallButtonLight { floor: 2, call: 1, on: true },
        ]
    );
    assert!(light_commands(&new_lights, &new_lights).is_empty());
}

#[test]
fn assigned_hall_orders_come_floor_by_floor_up_before_down() {
    let mut orders = OrderList::new(ELEV_NUM_FLOORS);
    orders.set_active(CallButton { floor: 3, call: 1 });
    orders.set_active(CallButton { floor: 3, call: 0 });
    orders.set_pending(true, CallButton { floor: 0, call: 1 });
    orders.set_active(CallButton { floor: 2, call: 2 });
    assert_eq!(
        assign_orders_locally(orders),
        vec![
            CallButton { floor: 0, call: 1 },
            CallButton { floor: 3, call: 0 },
            CallButton { floor: 3, call: 1 },
        ]
    );
    assert!(assign_orders_locally(OrderList::new(0)).is_empty());
}

#[test]
fn merge_remote_active_keeps_only_active_hall_orders() {
    let mut first = OrderList::new(3);
    first.set_active(CallButton { floor: 0, call: 0 });
    first.set_pending(true, CallButton { floor: 1, call: 0 });
    first.set_active(CallButton { floor: 2, call: 2 });
    let mut second = OrderList::new(3);
    second.set_active(CallButton { floor: 2, call: 1 });
    second.set_active(CallButton { floor: 0, call: 0 });
    let mut expected = OrderList::new(3);
    expected.set_active(CallButton { floor: 0, call: 0 });
    expected.set_active(CallButton { floor: 2, call: 1 });
    assert_eq!(merge_remote_active(first, second), expected);
}

#[test]
fn an_active_bit_of_the_gossip_is_never_demoted_by_a_merge() {
    for held in [OrderType::Active, OrderType::Pending, OrderType::NoOrder] {
        let mut local = OrderList::new(2);
        local.modify_order(CallButton { floor: 1, call: 0 }, held);
        let mut remote = OrderList::new(2);
        remote.set_active(CallButton { floor: 1, call: 0 });
        let merged = merge_remote_orders(local, remote);
        assert!(merged.is_active(CallButton { floor: 1, call: 0 }));
    }
}

#[test]
fn hall_orders_keep_a_single_owner_through_gossip() {
    let mut fleet = ConnectedElevatorInfo::new(snapshot(0, State::Moving, 0, &[(1, 0)]), MAX_NUM_ELEV);
    fleet.update_remote_elevator_info(vec![
        snapshot(1, State::Moving, 0, &[(2, 1)]),
        snapshot(2, State::Moving, 0, &[(3, 0)]),
    ]);
    fleet.set_to_pending(true, 1, CallButton { floor: 3, call: 0 });
    fleet.update_remote_elevator_info(vec![
        snapshot(1, State::Moving, 0, &[(2, 1)]),
        snapshot(2, State::Moving, 0, &[(3, 0)]),
    ]);
    for floor in 0..ELEV_NUM_FLOORS {
        for call in 0..2u8 {
            let button = CallButton { floor, call };
            let owners = (0..MAX_NUM_ELEV).filter(|id| fleet.is_active(*id, button)).count();
            assert!(owners <= 1);
        }
    }
}

#[test]
fn updates_are_dispatched_by_kind() {
    let mut fleet = ConnectedElevatorInfo::new(snapshot(0, State::Idle, 0, &[]), MAX_NUM_ELEV);
    let peer = snapshot(1, State::Moving, 1, &[(2, 0)]);
    let remote = FleetUpdate::Remote { peers: vec![peer.clone()] };
    assert!(fleet.admits(&remote));
    let report = fleet.on_update(remote);
    assert!(report.lost_orders.is_empty());
    assert_eq!(report.snapshot.get_connected_elevators(), fleet.get_connected_elevators());
    assert_eq!(report.snapshot.get_connected_elevators()[1], Some(peer.clone()));

    let mark = FleetUpdate::SetPending { should_set: true, id: 1, button: CallButton { floor: 4, call: 1 } };
    assert!(fleet.admits(&mark));
    assert!(fleet.on_update(mark).lost_orders.is_empty());
    assert!(fleet.is_pending(1, CallButton { floor: 4, call: 1 }));

    let local = snapshot(0, State::DoorOpen, 3, &[(3, 2)]);
    let report = fleet.on_update(FleetUpdate::Local { info: local.clone() });
    assert!(report.lost_orders.is_empty());
    assert_eq!(report.snapshot.get_local_elevator_info(), Some(local.clone()));
    assert_eq!(fleet.get_local_elevator_info(), Some(local));

    let report = fleet.on_update(FleetUpdate::Remote { peers: Vec::new() });
    assert_eq!(
        report.lost_orders,
        vec![CallButton { floor: 2, call: 0 }, CallButton { floor: 4, call: 1 }]
    );
    assert_eq!(report.snapshot.get_connected_elevators()[1], None);
}

#[test]
fn updates_that_do_not_fit_are_not_admitted() {
    let fleet = ConnectedElevatorInfo::new(snapshot(0, State::Idle, 0, &[]), MAX_NUM_ELEV);
    let mut short = snapshot(1, State::Idle, 0, &[]);
    short.responsible_orders = OrderList::new(4);
    assert!(!fleet.fits(&short));
    assert!(!fleet.accepts(&vec![short.clone()]));
    assert!(!fleet.admits(&FleetUpdate::Local { info: short }));
    assert!(!fleet.accepts(&vec![snapshot(3, State::Idle, 0, &[])]));
    assert!(fleet.accepts(&vec![snapshot(2, State::Idle, 0, &[])]));
    let off = FleetUpdate::SetPending { should_set: true, id: 3, button: CallButton { floor: 0, call: 0 } };
    assert!(!fleet.admits(&off));
    let no_such_button =
        FleetUpdate::SetPending { should_set: true, id: 1, button: CallButton { floor: 5, call: 0 } };
    assert!(!fleet.admits(&no_such_button));
}
