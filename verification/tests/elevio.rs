use elevator::local_elevator::elevio::elev::{
    reply_floor, reply_is_set, HardwareCommand, HardwareQuery, DIRN_DOWN, DIRN_STOP, DIRN_UP,
};
use elevator::local_elevator::elevio::poll::{
    has_changed, is_new_press, new_floor, CallButton, CAB, HALL_DOWN, HALL_UP,
};

#[test]
fn commands_are_encoded_in_four_bytes() {
    assert_eq!(HardwareCommand::MotorDirection { dirn: DIRN_UP }.encode(), [1, 1, 0, 0]);
    assert_eq!(HardwareCommand::MotorDirection { dirn: DIRN_DOWN }.encode(), [1, 255, 0, 0]);
    assert_eq!(HardwareCommand::MotorDirection { dirn: DIRN_STOP }.encode(), [1, 0, 0, 0]);
    assert_eq!(
        HardwareCommand::CallButtonLight { floor: 3, call: 1, on: true }.encode(),
        [2, 1, 3, 1]
    );
    assert_eq!(
        HardwareCommand::CallButtonLight { floor: 2, call: 0, on: false }.encode(),
        [2, 0, 2, 0]
    );
    assert_eq!(HardwareCommand::FloorLight { floor: 4 }.encode(), [3, 4, 0, 0]);
    assert_eq!(HardwareCommand::DoorLight { on: true }.encode(), [4, 1, 0, 0]);
    assert_eq!(HardwareCommand::DoorLight { on: false }.encode(), [4, 0, 0, 0]);
    assert_eq!(HardwareCommand::StopLight { on: true }.encode(), [5, 1, 0, 0]);
}

#[test]
fn queries_are_encoded_in_four_bytes() {
    assert_eq!(HardwareQuery::CallButton { floor: 3, call: 2 }.encode(), [6, 2, 3, 0]);
    assert_eq!(HardwareQuery::FloorSensor.encode(), [7, 0, 0, 0]);
    assert_eq!(HardwareQuery::StopButton.encode(), [8, 0, 0, 0]);
    assert_eq!(HardwareQuery::Obstruction.encode(), [9, 0, 0, 0]);
}

#[test]
fn replies_are_read_from_the_second_and_third_byte() {
    assert!(reply_is_set(&[6, 1, 0, 0]));
    assert!(reply_is_set(&[6, 200, 0, 0]));
    assert!(!reply_is_set(&[6, 0, 1, 1]));
    assert_eq!(reply_floor(&[7, 1, 3, 0]), Some(3));
    assert_eq!(reply_floor(&[7, 0, 3, 0]), None);
}

#[test]
fn a_button_is_reported_when_it_goes_down() {
    assert!(is_new_press(false, true));
    assert!(!is_new_press(true, true));
    assert!(!is_new_press(true, false));
    assert!(!is_new_press(false, false));
}

#[test]
fn a_floor_is_reported_when_it_changes() {
    assert_eq!(new_floor(255, Some(2)), Some(2));
    assert_eq!(new_floor(2, Some(2)), None);
    assert_eq!(new_floor(2, None), None);
    assert_eq!(new_floor(2, Some(3)), Some(3));
}

#[test]
fn a_switch_is_reported_when_it_changes() {
    assert!(has_changed(false, true));
    assert!(has_changed(true, false));
    assert!(!has_changed(true, true));
    assert!(!has_changed(false, false));
}

#[test]
fn buttons_know_whether_they_exist() {
    assert_eq!((HALL_UP, HALL_DOWN, CAB), (0, 1, 2));
    assert!(CallButton { floor: 4, call: CAB }.is_valid(5));
    assert!(!CallButton { floor: 5, call: CAB }.is_valid(5));
    assert!(!CallButton { floor: 0, call: 3 }.is_valid(5));
    assert!(!CallButton { floor: 0, call: 0 }.is_valid(0));
}
