use elevator::global_elevator_info::connected_elevators::ConnectedElevatorInfo;
use elevator::local_elevator::elevio::elev::{HardwareCommand, DIRN_DOWN, DIRN_UP};
use elevator::local_elevator::elevio::poll::CallButton;
use elevator::local_elevator::fsm::elevatorfsm::{Elevator, ElevatorInfo, Event, State};
use elevator::local_elevator::fsm::order_list::OrderList;
use elevator::order_assigner::order_receiver::{
    backup_window_open, cab_orders_to_restore, receive_order,
};
use elevator::order_assigner::order_transmitter::{
    assign_order, check_pending, RouterAction, CAB_BACKUP_BURST_SIZE, ORDER_BURST_SIZE,
    PENDING_CHECK_DELAY_MILLISEC,
};

fn handed_to(owner: usize, button: CallButton) -> Vec<RouterAction> {
    vec![
        RouterAction::Broadcast { owner, button },
        RouterAction::SetPending { should_set: true, id: owner, button },
        RouterAction::CheckLater { id: owner, button },
    ]
}

fn reclaimed_from(id: usize, button: CallButton) -> Vec<RouterAction> {
    vec![
        RouterAction::AssignLocally { button },
        RouterAction::SetPending { should_set: false, id, button },
    ]
}

fn idle(id: usize, floor: u8) -> ElevatorInfo {
    ElevatorInfo {
        id,
        state: State::Idle,
        dirn: DIRN_DOWN,
        floor,
        responsible_orders: OrderList::new(5),
    }
}

fn idle_machine(id: usize, floor: u8) -> Elevator {
    let (mut elevator, _startup) = Elevator::new(id, 5);
    elevator.on_event(Event::OnFloorArrival { floor });
    elevator.on_event(Event::OnDoorTimeOut);
    elevator
}

#[test]
fn cab_orders_never_leave_the_node() {
    let mut fleet = ConnectedElevatorInfo::new(idle(1, 0), 3);
    fleet.update_remote_elevator_info(vec![idle(0, 4)]);
    let button = CallButton { floor: 4, call: 2 };
    assert_eq!(assign_order(&fleet, button), vec![RouterAction::AssignLocally { button }]);
}

#[test]
fn distributed_hand_off() {
    // Nodes 0 and 1 idle at floor 2, node 2 absent; the button is pressed at node 0.
    let button = CallButton { floor: 4, call: 0 };
    let mut node_0 = idle_machine(0, 2);
    let mut view_0 = ConnectedElevatorInfo::new(node_0.get_info(), 3);
    view_0.update_remote_elevator_info(vec![idle(1, 2)]);
    let mut view_1 = ConnectedElevatorInfo::new(idle(1, 2), 3);
    view_1.update_remote_elevator_info(vec![node_0.get_info()]);

    assert_eq!(assign_order(&view_0, button), vec![RouterAction::AssignLocally { button }]);
    node_0.on_event(Event::OnNewOrder { btn: button });
    view_0.update_local_elevator_info(node_0.get_info());
    assert!(view_0.is_active(0, button));

    // One gossip period later node 1 knows, and shows the light.
    view_1.update_remote_elevator_info(vec![node_0.get_info()]);
    assert!(view_1.is_active(0, button));
    assert!(view_1.get_orders_for_lights().is_active(button));
    // Had the button been pressed at node 1, node 0 would have got the order too.
    let mut view_1_before = ConnectedElevatorInfo::new(idle(1, 2), 3);
    view_1_before.update_remote_elevator_info(vec![idle(0, 2)]);
    assert_eq!(assign_order(&view_1_before, button), handed_to(0, button));
}

#[test]
fn fall_back_reassignment() {
    let button = CallButton { floor: 3, call: 1 };
    let mut node_0 = idle_machine(0, 0);
    let mut view = ConnectedElevatorInfo::new(node_0.get_info(), 3);
    view.update_remote_elevator_info(vec![idle(1, 4)]);

    // Node 1 wins; node 0 hands the order over and marks it.
    assert_eq!(assign_order(&view, button), handed_to(1, button));
    view.set_to_pending(true, 1, button);
    assert!(view.is_pending(1, button));

    // Node 1 never confirms: its gossip, if any, does not show the order.
    view.update_remote_elevator_info(vec![idle(1, 4)]);
    assert_eq!(check_pending(&view, 1, button), reclaimed_from(1, button));
    view.set_to_pending(false, 1, button);
    assert!(!view.is_pending(1, button));

    let effects = node_0.on_event(Event::OnNewOrder { btn: button });
    assert_eq!(effects.hardware, vec![HardwareCommand::MotorDirection { dirn: DIRN_UP }]);
    assert_eq!(node_0.get_state(), State::Moving);
    node_0.on_event(Event::OnFloorArrival { floor: 1 });
    node_0.on_event(Event::OnFloorArrival { floor: 2 });
    node_0.on_event(Event::OnFloorArrival { floor: 3 });
    assert_eq!(node_0.get_state(), State::DoorOpen);
    assert_eq!(node_0.get_floor(), 3);
}

#[test]
fn a_confirmed_order_is_not_reclaimed() {
    let button = CallButton { floor: 3, call: 1 };
    let mut view = ConnectedElevatorInfo::new(idle(0, 0), 3);
    view.update_remote_elevator_info(vec![idle(1, 4)]);
    view.set_to_pending(true, 1, button);
    let mut confirmed = idle(1, 4);
    confirmed.state = State::Moving;
    confirmed.responsible_orders.set_active(button);
    view.update_remote_elevator_info(vec![confirmed]);
    assert!(check_pending(&view, 1, button).is_empty());
}

#[test]
fn an_order_of_a_lost_peer_is_reclaimed() {
    let button = CallButton { floor: 3, call: 1 };
    let mut view = ConnectedElevatorInfo::new(idle(0, 0), 3);
    view.update_remote_elevator_info(vec![idle(1, 4)]);
    view.set_to_pending(true, 1, button);
    let lost = view.update_remote_elevator_info(Vec::new());
    assert_eq!(lost, vec![button]);
    assert_eq!(check_pending(&view, 1, button), reclaimed_from(1, button));
}

#[test]
fn assignments_for_this_node_are_served_and_others_are_marked() {
    let button = CallButton { floor: 1, call: 0 };
    assert_eq!(receive_order(1, 1, button), RouterAction::AssignLocally { button });
    assert_eq!(
        receive_order(1, 2, button),
        RouterAction::SetPending { should_set: true, id: 2, button }
    );
}

#[test]
fn redundancy_of_the_hand_off() {
    assert_eq!(ORDER_BURST_SIZE, 5);
    assert_eq!(CAB_BACKUP_BURST_SIZE, 10);
    assert_eq!(PENDING_CHECK_DELAY_MILLISEC, 1_000);
}

#[test]
fn restart_with_cab_recovery() {
    // Node 0 runs with cab orders at floors 2 and 4.
    let mut node_0 = idle_machine(0, 0);
    node_0.on_event(Event::OnNewOrder { btn: CallButton { floor: 2, call: 2 } });
    node_0.on_event(Event::OnNewOrder { btn: CallButton { floor: 4, call: 2 } });
    node_0.on_event(Event::OnNewOrder { btn: CallButton { floor: 3, call: 0 } });
    let backup = node_0.get_info();

    // It restarts and hears the backup that a peer kept of it.
    let (mut restarted, _startup) = Elevator::new(0, 5);
    restarted.on_event(Event::OnFloorArrival { floor: 0 });
    let restored = cab_orders_to_restore(0, &backup);
    assert_eq!(restored, vec![CallButton { floor: 2, call: 2 }, CallButton { floor: 4, call: 2 }]);
    for button in restored {
        restarted.on_event(Event::OnNewOrder { btn: button });
    }

    // Both cab orders are served.
    let mut served: Vec<u8> = Vec::new();
    let mut rounds = 0;
    while restarted.get_state() != State::Idle {
        let event = match restarted.get_state() {
            State::Moving => Event::OnFloorArrival { floor: restarted.get_floor() + 1 },
            _ => Event::OnDoorTimeOut,
        };
        let before = restarted.get_state();
        restarted.on_event(event);
        if before == State::Moving && restarted.get_state() == State::DoorOpen {
            served.push(restarted.get_floor());
        }
        rounds += 1;
        assert!(rounds < 50);
    }
    assert_eq!(served, vec![2, 4]);
}

#[test]
fn backups_of_other_elevators_restore_nothing() {
    let mut backup = idle(1, 0);
    backup.responsible_orders.set_active(CallButton { floor: 2, call: 2 });
    assert!(cab_orders_to_restore(0, &backup).is_empty());
    assert_eq!(cab_orders_to_restore(1, &backup), vec![CallButton { floor: 2, call: 2 }]);
}

#[test]
fn pending_cab_orders_are_not_restored() {
    let mut backup = idle(0, 0);
    backup.responsible_orders.set_pending(true, CallButton { floor: 1, call: 2 });
    backup.responsible_orders.set_active(CallButton { floor: 3, call: 0 });
    assert!(cab_orders_to_restore(0, &backup).is_empty());
}

#[test]
fn the_backup_window_closes_after_five_seconds() {
    assert!(backup_window_open(1_000, 1_000));
    assert!(backup_window_open(1_000, 5_999));
    assert!(!backup_window_open(1_000, 6_000));
    assert!(backup_window_open(1_000, 500));
}

#[test]
fn motor_stall() {
    let button = CallButton { floor: 4, call: 0 };
    let mut node_0 = idle_machine(0, 0);
    let view_0 = ConnectedElevatorInfo::new(node_0.get_info(), 3);
    let mut view_1 = ConnectedElevatorInfo::new(idle(1, 2), 3);
    view_1.update_remote_elevator_info(vec![node_0.get_info()]);

    // Node 0 knows of no peer and takes the order itself.
    assert_eq!(assign_order(&view_0, button), vec![RouterAction::AssignLocally { button }]);
    let effects = node_0.on_event(Event::OnNewOrder { btn: button });
    assert_eq!(effects.hardware, vec![HardwareCommand::MotorDirection { dirn: DIRN_UP }]);
    let lost = view_1.update_remote_elevator_info(vec![effects.info]);
    assert!(lost.is_empty());
    assert!(view_1.is_active(0, button));

    // The floor sensor fails: no arrival, the watchdog fires.
    let effects = node_0.on_event(Event::OnStateTimeOut);
    assert_eq!(node_0.get_state(), State::MovTimedOut);
    assert!(node_0.get_orders().is_pending(button));
    assert!(!node_0.get_orders().is_active(button));

    // Node 1 hears of it and takes the order over.
    let lost = view_1.update_remote_elevator_info(vec![effects.info]);
    assert_eq!(lost, vec![button]);
    assert!(!view_1.is_active(0, button));
    assert_eq!(assign_order(&view_1, button), vec![RouterAction::AssignLocally { button }]);
}

#[test]
fn survivors_of_a_crash_agree_on_the_new_owners() {
    let node_0 = idle(0, 0);
    let node_1 = idle(1, 4);
    let mut node_2 = idle(2, 2);
    node_2.state = State::Moving;
    node_2.dirn = DIRN_UP;
    node_2.responsible_orders.set_active(CallButton { floor: 1, call: 0 });
    node_2.responsible_orders.set_active(CallButton { floor: 3, call: 1 });

    let mut view_0 = ConnectedElevatorInfo::new(node_0.clone(), 3);
    view_0.update_remote_elevator_info(vec![node_1.clone(), node_2.clone()]);
    let mut view_1 = ConnectedElevatorInfo::new(node_1.clone(), 3);
    view_1.update_remote_elevator_info(vec![node_0.clone(), node_2]);

    // Node 2 is killed: both survivors hear only of each other.
    let lost_at_0 = view_0.update_remote_elevator_info(vec![node_1]);
    let lost_at_1 = view_1.update_remote_elevator_info(vec![node_0]);
    let expected = vec![CallButton { floor: 1, call: 0 }, CallButton { floor: 3, call: 1 }];
    assert_eq!(lost_at_0, expected);
    assert_eq!(lost_at_1, expected);
    assert_eq!(view_0.get_connected_elevators()[2], None);
    assert_eq!(view_1.get_connected_elevators()[2], None);

    // Over the same snapshots both pick the same owner for either order.
    for button in expected {
        let owner_at_0 = elevator::order_assigner::cost_function::find_lowest_cost_id(
            view_0.clone(),
            button,
        );
        let owner_at_1 = elevator::order_assigner::cost_function::find_lowest_cost_id(
            view_1.clone(),
            button,
        );
        assert_eq!(owner_at_0, owner_at_1);
        assert_eq!(owner_at_0, if button.floor == 1 { 0 } else { 1 });
    }
}
