//! The event-driven state machine of one elevator.
//!
//! The machine does not talk to the hardware, the door timer or the
//! watchdog itself. Handling an event changes the machine and returns what
//! has to be sent to them, so that the same code drives the real elevator
//! and the simulated one of the cost function.
use crate::local_elevator::elevio::elev::{HardwareCommand, DIRN_DOWN, DIRN_STOP, DIRN_UP};
use crate::local_elevator::elevio::poll::CallButton;
use crate::local_elevator::fsm::direction_decider::{
    choose_direction,
    chosen_direction,
    orders_above,
    orders_below,
    queue_active_above,
    queue_active_below,
    should_stop,
    stops_at,
};
use crate::local_elevator::fsm::door_timer::TimerCommand;
use crate::local_elevator::fsm::order_list::{OrderList, OrderListView, OrderType};
use vstd::prelude::*;

verus! {

/// Floor of an elevator whose floor sensor has not reported yet.
pub const UNKNOWN_FLOOR: u8 = 255;

/// What the elevator is doing.
#[derive(Copy, Clone, Debug, PartialEq, Eq, Hash, Structural)]
pub enum State {
    Initializing,
    DoorOpen,
    Idle,
    Obstructed,
    ObstrTimedOut,
    Moving,
    MovTimedOut,
}

/// What can happen to the elevator.
#[derive(Copy, Clone, Debug, PartialEq, Eq, Structural)]
pub enum Event {
    OnDoorTimeOut,
    OnFloorArrival { floor: u8 },
    OnNewOrder { btn: CallButton },
    OnObstructionSignal { active: bool },
    OnStateTimeOut,
}

impl Event {
    /// The floor or the button that the event carries exists in a building
    /// with `n_floors` floors.
    pub open spec fn valid(self, n_floors: nat) -> bool {
        match self {
            Event::OnFloorArrival { floor } => floor < n_floors,
            Event::OnNewOrder { btn } => btn.valid(n_floors),
            _ => true,
        }
    }

    /// Tells whether the floor or the button that the event carries exists
    /// in a building with `n_floors` floors.
    pub fn is_valid(&self, n_floors: usize) -> (ok: bool)
        ensures
            ok == self.valid(n_floors as nat),
    {
        match self {
            Event::OnFloorArrival { floor } => (*floor as usize) < n_floors,
            Event::OnNewOrder { btn } => btn.is_valid(n_floors),
            _ => true,
        }
    }
}

/// Mathematical model of an [`ElevatorInfo`].
pub struct ElevatorInfoView {
    pub id: usize,
    pub state: State,
    pub dirn: u8,
    pub floor: u8,
    pub orders: OrderListView,
}

impl ElevatorInfoView {
    /// The snapshot is one that an elevator can be in: its order list is well
    /// formed, its direction is up, down or stop, and its floor exists unless
    /// the floor sensor has not reported yet, which only an initializing
    /// elevator, or one that timed out on the way, can say.
    pub open spec fn wf(self) -> bool {
        &&& self.orders.wf()
        &&& (self.dirn == DIRN_UP || self.dirn == DIRN_DOWN || self.dirn == DIRN_STOP)
        &&& (self.floor < self.orders.n_floors() || self.state == State::Initializing || self.state
            == State::MovTimedOut)
    }

    /// An `Active` order lies ahead of the elevator in its direction.
    pub open spec fn order_ahead(self) -> bool {
        ||| self.dirn == DIRN_UP && orders_above(self.orders, self.floor as int)
        ||| self.dirn == DIRN_DOWN && orders_below(self.orders, self.floor as int)
    }

    /// What holds of every snapshot that the state machine reaches from its
    /// start: an idle elevator has no `Active` order, and a moving one has an
    /// `Active` order ahead.
    pub open spec fn inv(self) -> bool {
        &&& self.wf()
        &&& (self.state == State::Idle ==> self.orders.no_active())
        &&& (self.state == State::Moving ==> self.order_ahead())
    }

    /// The snapshot of an elevator `id` of `n_floors` floors that has just
    /// been switched on.
    pub open spec fn initial(id: usize, n_floors: nat) -> ElevatorInfoView {
        ElevatorInfoView {
            id,
            state: State::Initializing,
            dirn: DIRN_DOWN,
            floor: UNKNOWN_FLOOR,
            orders: OrderListView::empty(n_floors),
        }
    }
}

/// Snapshot of one elevator, as the node publishes and gossips it.
#[derive(Eq, Debug, Hash)]
pub struct ElevatorInfo {
    pub id: usize,
    pub state: State,
    pub dirn: u8,
    pub floor: u8,
    pub responsible_orders: OrderList,
}

impl View for ElevatorInfo {
    type V = ElevatorInfoView;

    open spec fn view(&self) -> ElevatorInfoView {
        ElevatorInfoView {
            id: self.id,
            state: self.state,
            dirn: self.dirn,
            floor: self.floor,
            orders: self.responsible_orders@,
        }
    }
}

impl Clone for ElevatorInfo {
    fn clone(&self) -> (res: Self)
        ensures
            res@ == self@,
    {
        ElevatorInfo {
            id: self.id,
            state: self.state,
            dirn: self.dirn,
            floor: self.floor,
            responsible_orders: self.responsible_orders.clone(),
        }
    }
}

impl PartialEq for ElevatorInfo {
    /// Two snapshots are equal when they agree in every field and in every
    /// slot of their order lists.
    fn eq(&self, other: &Self) -> (equal: bool) {
        self.id == other.id && self.state == other.state && self.dirn == other.dirn && self.floor
            == other.floor && self.responsible_orders == other.responsible_orders
    }
}

impl vstd::std_specs::cmp::PartialEqSpecImpl for ElevatorInfo {
    open spec fn obeys_eq_spec() -> bool {
        true
    }

    open spec fn eq_spec(&self, other: &Self) -> bool {
        self@ == other@
    }
}

impl ElevatorInfo {
    /// See [`ElevatorInfoView::wf`].
    pub open spec fn wf(&self) -> bool {
        self@.wf()
    }

    /// Identity of the elevator that the snapshot describes.
    pub fn get_id(&self) -> (id: usize)
        ensures
            id == self@.id,
    {
        self.id
    }

    /// Tells whether the snapshot is one that an elevator can be in.
    pub fn is_wf(&self) -> (ok: bool)
        ensures
            ok == self.wf(),
    {
        self.responsible_orders.is_wf() && (self.dirn == DIRN_UP || self.dirn == DIRN_DOWN
            || self.dirn == DIRN_STOP) && ((self.floor as usize)
            < self.responsible_orders.num_floors() || self.state == State::Initializing
            || self.state == State::MovTimedOut)
    }
}

/// Mathematical model of [`Effects`].
pub struct EffectsView {
    pub hardware: Seq<HardwareCommand>,
    pub timer: Option<TimerCommand>,
    pub state_update: Option<State>,
}

impl EffectsView {
    /// Nothing is asked of anyone.
    pub open spec fn nothing() -> EffectsView {
        EffectsView { hardware: seq![], timer: None, state_update: None }
    }
}

/// What handling one event asks of the machine's surroundings.
#[derive(Debug)]
pub struct Effects {
    /// Commands for the hardware, in the order in which they are to be sent.
    pub hardware: Vec<HardwareCommand>,
    /// Command for the door timer, if any.
    pub timer: Option<TimerCommand>,
    /// State to report to the state-timeout watchdog, if any. A report
    /// restarts the watchdog's clock.
    pub state_update: Option<State>,
    /// The snapshot of the elevator after the event, to be published.
    pub info: ElevatorInfo,
}

impl View for Effects {
    type V = EffectsView;

    open spec fn view(&self) -> EffectsView {
        EffectsView { hardware: self.hardware@, timer: self.timer, state_update: self.state_update }
    }
}

/// What handling one event asks of the hardware, the door timer and the
/// watchdog.
struct Requests {
    hardware: Vec<HardwareCommand>,
    timer: Option<TimerCommand>,
    state_update: Option<State>,
}

impl View for Requests {
    type V = EffectsView;

    closed spec fn view(&self) -> EffectsView {
        EffectsView { hardware: self.hardware@, timer: self.timer, state_update: self.state_update }
    }
}

impl Requests {
    fn nothing() -> (requests: Requests)
        ensures
            requests@ == EffectsView::nothing(),
    {
        Requests { hardware: Vec::new(), timer: None, state_update: None }
    }
}

/// Result of handling one event: the elevator afterwards, and the effects.
pub struct Transition {
    pub next: ElevatorInfoView,
    pub effects: EffectsView,
}

/// The transition that changes nothing and asks for nothing.
pub open spec fn stay(s: ElevatorInfoView) -> Transition {
    Transition { next: s, effects: EffectsView::nothing() }
}

/// The door timer ran out. With the door open, the door closes, the orders
/// of the floor are cleared and the elevator goes on in the direction the
/// policy picks, or becomes idle if that is to stop. In any other state the
/// event is ignored.
pub open spec fn after_door_time_out(s: ElevatorInfoView) -> Transition {
    if s.state == State::DoorOpen {
        let orders = s.orders.cleared_floor(s.floor as int);
        let dirn = chosen_direction(orders, s.dirn, s.floor as int);
        let hardware = seq![
            HardwareCommand::DoorLight { on: false },
            HardwareCommand::MotorDirection { dirn },
        ];
        if dirn == DIRN_STOP {
            Transition {
                next: ElevatorInfoView { state: State::Idle, orders, ..s },
                effects: EffectsView { hardware, timer: None, state_update: Some(State::Idle) },
            }
        } else {
            Transition {
                next: ElevatorInfoView { state: State::Moving, dirn, orders, ..s },
                effects: EffectsView { hardware, timer: None, state_update: Some(State::Moving) },
            }
        }
    } else {
        stay(s)
    }
}

/// Effects of stopping at `floor`, reached a moment ago, and opening the
/// door.
pub open spec fn door_opening_effects(floor: u8) -> EffectsView {
    EffectsView {
        hardware: seq![
            HardwareCommand::FloorLight { floor },
            HardwareCommand::MotorDirection { dirn: DIRN_STOP },
            HardwareCommand::DoorLight { on: true },
        ],
        timer: Some(TimerCommand::Start),
        state_update: Some(State::DoorOpen),
    }
}

/// Effects of the first arrival at a floor: the door light goes on before
/// the motor is told to stop.
pub open spec fn first_arrival_effects(floor: u8) -> EffectsView {
    EffectsView {
        hardware: seq![
            HardwareCommand::FloorLight { floor },
            HardwareCommand::DoorLight { on: true },
            HardwareCommand::MotorDirection { dirn: DIRN_STOP },
        ],
        timer: Some(TimerCommand::Start),
        state_update: Some(State::DoorOpen),
    }
}

/// The floor sensor reported `floor`. The floor is recorded and shown. A
/// moving elevator that has to stop there stops, opens the door and clears
/// the orders of the floor; one that has not goes on. An initializing
/// elevator stops and opens the door. One that timed out on the way takes
/// its hall orders back, stops and opens the door.
pub open spec fn after_floor_arrival(s: ElevatorInfoView, floor: u8) -> Transition {
    let arrived = ElevatorInfoView { floor, ..s };
    if s.state == State::Moving {
        if stops_at(s.orders, s.dirn, floor as int) {
            Transition {
                next: ElevatorInfoView {
                    state: State::DoorOpen,
                    orders: s.orders.cleared_floor(floor as int),
                    ..arrived
                },
                effects: door_opening_effects(floor),
            }
        } else {
            Transition {
                next: arrived,
                effects: EffectsView {
                    hardware: seq![HardwareCommand::FloorLight { floor }],
                    timer: None,
                    state_update: Some(State::Moving),
                },
            }
        }
    } else if s.state == State::Initializing {
        Transition {
            next: ElevatorInfoView { state: State::DoorOpen, ..arrived },
            effects: first_arrival_effects(floor),
        }
    } else if s.state == State::MovTimedOut {
        Transition {
            next: ElevatorInfoView {
                state: State::DoorOpen,
                orders: s.orders.with_hall_orders_as(OrderType::Active),
                ..arrived
            },
            effects: door_opening_effects(floor),
        }
    } else {
        Transition {
            next: arrived,
            effects: EffectsView {
                hardware: seq![HardwareCommand::FloorLight { floor }],
                timer: None,
                state_update: None,
            },
        }
    }
}

/// The elevator was given the order of `btn`. An initializing elevator, or
/// one that timed out on the way, does not accept it. Any other marks it
/// `Active`. An idle elevator then opens the door if the order is for its
/// floor, and else sets off; one with the door open restarts the door timer
/// if the order is for its floor.
pub open spec fn after_new_order(s: ElevatorInfoView, btn: CallButton) -> Transition {
    let orders = s.orders.with_status(btn, OrderType::Active);
    let accepted = ElevatorInfoView { orders, ..s };
    if s.state == State::Initializing || s.state == State::MovTimedOut {
        stay(s)
    } else if s.state == State::DoorOpen {
        Transition {
            next: accepted,
            effects: EffectsView {
                hardware: seq![],
                timer: if s.floor == btn.floor {
                    Some(TimerCommand::Start)
                } else {
                    None
                },
                state_update: None,
            },
        }
    } else if s.state == State::Idle {
        if s.floor == btn.floor {
            Transition {
                next: ElevatorInfoView { state: State::DoorOpen, ..accepted },
                effects: EffectsView {
                    hardware: seq![HardwareCommand::DoorLight { on: true }],
                    timer: Some(TimerCommand::Start),
                    state_update: Some(State::DoorOpen),
                },
            }
        } else {
            let dirn = chosen_direction(orders, s.dirn, s.floor as int);
            Transition {
                next: ElevatorInfoView { state: State::Moving, dirn, ..accepted },
                effects: EffectsView {
                    hardware: seq![HardwareCommand::MotorDirection { dirn }],
                    timer: None,
                    state_update: Some(State::Moving),
                },
            }
        }
    } else {
        Transition {
            next: accepted,
            effects: EffectsView { hardware: seq![], timer: None, state_update: None },
        }
    }
}

/// The obstruction switch changed. It matters while the door is open or
/// held open: an obstruction cancels the door timer and holds the door, its
/// end starts the door timer anew.
pub open spec fn after_obstruction_signal(s: ElevatorInfoView, active: bool) -> Transition {
    if s.state == State::DoorOpen || s.state == State::Obstructed || s.state
        == State::ObstrTimedOut {
        if active {
            Transition {
                next: ElevatorInfoView { state: State::Obstructed, ..s },
                effects: EffectsView {
                    hardware: seq![],
                    timer: Some(TimerCommand::Cancel),
                    state_update: Some(State::Obstructed),
                },
            }
        } else {
            Transition {
                next: ElevatorInfoView { state: State::DoorOpen, ..s },
                effects: EffectsView {
                    hardware: seq![],
                    timer: Some(TimerCommand::Start),
                    state_update: Some(State::DoorOpen),
                },
            }
        }
    } else {
        stay(s)
    }
}

/// The elevator stayed in its state too long. An obstructed elevator is
/// marked as timed out. A moving or initializing one is marked as timed out
/// on the way and releases its hall orders: they become `Pending`.
pub open spec fn after_state_timeout(s: ElevatorInfoView) -> Transition {
    if s.state == State::Obstructed {
        Transition {
            next: ElevatorInfoView { state: State::ObstrTimedOut, ..s },
            effects: EffectsView {
                hardware: seq![],
                timer: None,
                state_update: Some(State::ObstrTimedOut),
            },
        }
    } else if s.state == State::Moving || s.state == State::Initializing {
        Transition {
            next: ElevatorInfoView {
                state: State::MovTimedOut,
                orders: s.orders.with_hall_orders_as(OrderType::Pending),
                ..s
            },
            effects: EffectsView {
                hardware: seq![],
                timer: None,
                state_update: Some(State::MovTimedOut),
            },
        }
    } else {
        stay(s)
    }
}

/// The transition function of the state machine.
pub open spec fn step(s: ElevatorInfoView, event: Event) -> Transition {
    match event {
        Event::OnDoorTimeOut => after_door_time_out(s),
        Event::OnFloorArrival { floor } => after_floor_arrival(s, floor),
        Event::OnNewOrder { btn } => after_new_order(s, btn),
        Event::OnObstructionSignal { active } => after_obstruction_signal(s, active),
        Event::OnStateTimeOut => after_state_timeout(s),
    }
}

/// The commands that an elevator of `n_floors` floors sends when it is
/// switched on: motor down, every call button light off (floor by floor, per
/// floor the three call kinds), stop light off, door light off.
pub open spec fn startup_commands(n_floors: nat) -> Seq<HardwareCommand> {
    seq![HardwareCommand::MotorDirection { dirn: DIRN_DOWN }] + Seq::new(
        3 * n_floors,
        |i: int| HardwareCommand::CallButtonLight { floor: (i / 3) as u8, call: (i % 3) as u8, on: false },
    ) + seq![HardwareCommand::StopLight { on: false }, HardwareCommand::DoorLight { on: false }]
}

/// The state machine of one elevator.
#[derive(Debug)]
pub struct Elevator {
    info: ElevatorInfo,
}

impl Clone for Elevator {
    fn clone(&self) -> (res: Self)
        ensures
            res@ == self@,
    {
        Elevator { info: self.info.clone() }
    }
}

impl View for Elevator {
    type V = ElevatorInfoView;

    closed spec fn view(&self) -> ElevatorInfoView {
        self.info@
    }
}

impl Elevator {
    /// See [`ElevatorInfoView::wf`].
    pub open spec fn wf(&self) -> bool {
        self@.wf()
    }

    /// The order list is well formed.
    pub open spec fn orders_wf(&self) -> bool {
        self@.orders.wf()
    }

    /// The elevator `id` of `num_floors` floors, just switched on, and the
    /// commands that bring the hardware to a known state: the cab is sent
    /// downwards, to reach a floor even if it stood between two, and every
    /// light is switched off.
    pub fn new(id: usize, num_floors: u8) -> (created: (Elevator, Vec<HardwareCommand>))
        ensures
            created.0@ == ElevatorInfoView::initial(id, num_floors as nat),
            created.0@.inv(),
            created.1@ == startup_commands(num_floors as nat),
    {
        let mut commands: Vec<HardwareCommand> = Vec::new();
        commands.push(HardwareCommand::MotorDirection { dirn: DIRN_DOWN });
        let mut f: u8 = 0;
        while f < num_floors
            invariant
                f <= num_floors,
                commands@.len() == 1 + 3 * f,
                forall|i: int| 0 <= i < 1 + 3 * f ==> commands@[i] == startup_commands(
                    num_floors as nat,
                )[i],
            decreases num_floors - f,
        {
            let mut c: u8 = 0;
            while c < 3
                invariant
                    f < num_floors,
                    c <= 3,
                    commands@.len() == 1 + 3 * f + c,
                    forall|i: int| 0 <= i < 1 + 3 * f + c ==> commands@[i] == startup_commands(
                        num_floors as nat,
                    )[i],
                decreases 3 - c,
            {
                commands.push(HardwareCommand::CallButtonLight { floor: f, call: c, on: false });
                c += 1;
            }
            f += 1;
        }
        commands.push(HardwareCommand::StopLight { on: false });
        commands.push(HardwareCommand::DoorLight { on: false });
        assert(commands@ =~= startup_commands(num_floors as nat));
        let elevator = Elevator {
            info: ElevatorInfo {
                id,
                state: State::Initializing,
                dirn: DIRN_DOWN,
                floor: UNKNOWN_FLOOR,
                responsible_orders: OrderList::new(num_floors),
            },
        };
        (elevator, commands)
    }

    /// An elevator in the state that `info` describes. Nothing is sent to
    /// anyone: the cost function simulates with it.
    pub fn create_simulation_elevator(info: ElevatorInfo) -> (elevator: Elevator)
        ensures
            elevator@ == info@,
    {
        Elevator { info }
    }

    /// The current snapshot of the elevator.
    pub fn get_info(&self) -> (info: ElevatorInfo)
        ensures
            info@ == self@,
    {
        self.info.clone()
    }

    /// The floor that the floor sensor reported last.
    pub fn get_floor(&self) -> (floor: u8)
        ensures
            floor == self@.floor,
    {
        self.info.floor
    }

    /// What the elevator is doing.
    pub fn get_state(&self) -> (state: State)
        ensures
            state == self@.state,
    {
        self.info.state
    }

    /// The direction in which the elevator moved last.
    pub fn get_dirn(&self) -> (dirn: u8)
        ensures
            dirn == self@.dirn,
    {
        self.info.dirn
    }

    /// A copy of the orders that the elevator is responsible for.
    pub fn get_orders(&self) -> (orders: OrderList)
        ensures
            orders@ == self@.orders,
    {
        self.info.responsible_orders.clone()
    }

    /// The orders that the elevator is responsible for.
    pub fn orders(&self) -> (orders: &OrderList)
        ensures
            orders@ == self@.orders,
    {
        &self.info.responsible_orders
    }

    /// Handles `event`: takes the elevator to its next state and returns
    /// what has to be sent to the hardware, the door timer and the watchdog.
    pub fn on_event(&mut self, event: Event) -> (effects: Effects)
        requires
            old(self).wf(),
            event.valid(old(self)@.orders.n_floors()),
        ensures
            final(self)@ == step(old(self)@, event).next,
            effects@ == step(old(self)@, event).effects,
            effects.info@ == final(self)@,
            final(self).wf(),
            old(self)@.inv() ==> final(self)@.inv(),
    {
        proof {
            lemma_step_preserves_wf(self@, event);
            if self@.inv() {
                lemma_step_preserves_inv(self@, event);
            }
        }
        let requests: Requests = match event {
            Event::OnDoorTimeOut => self.on_door_time_out(),
            Event::OnFloorArrival { floor } => self.on_floor_arrival(floor),
            Event::OnNewOrder { btn } => self.on_new_order(btn),
            Event::OnObstructionSignal { active } => self.on_obstruction_signal(active),
            Event::OnStateTimeOut => self.on_state_timeout(),
        };
        Effects {
            hardware: requests.hardware,
            timer: requests.timer,
            state_update: requests.state_update,
            info: self.info.clone(),
        }
    }

    fn on_door_time_out(&mut self) -> (requests: Requests)
        requires
            old(self).wf(),
        ensures
            final(self)@ == after_door_time_out(old(self)@).next,
            requests@ == after_door_time_out(old(self)@).effects,
    {
        match self.info.state {
            State::DoorOpen => {
                let mut hardware: Vec<HardwareCommand> = Vec::new();
                hardware.push(HardwareCommand::DoorLight { on: false });
                self.info.responsible_orders.clear_orders_on_floor(self.info.floor);
                let new_dirn: u8 = choose_direction(self);
                hardware.push(HardwareCommand::MotorDirection { dirn: new_dirn });
                assert(hardware@ =~= after_door_time_out(old(self)@).effects.hardware);
                if new_dirn == DIRN_STOP {
                    self.info.state = State::Idle;
                    Requests { hardware, timer: None, state_update: Some(State::Idle) }
                } else {
                    self.info.dirn = new_dirn;
                    self.info.state = State::Moving;
                    Requests { hardware, timer: None, state_update: Some(State::Moving) }
                }
            },
            _ => Requests::nothing(),
        }
    }

    fn open_door(&mut self) -> (requests: Requests)
        ensures
            final(self)@ == (ElevatorInfoView { state: State::DoorOpen, ..old(self)@ }),
            requests@ == door_opening_effects(old(self)@.floor),
    {
        let mut hardware: Vec<HardwareCommand> = Vec::new();
        hardware.push(HardwareCommand::FloorLight { floor: self.info.floor });
        hardware.push(HardwareCommand::MotorDirection { dirn: DIRN_STOP });
        hardware.push(HardwareCommand::DoorLight { on: true });
        assert(hardware@ =~= door_opening_effects(self@.floor).hardware);
        self.info.state = State::DoorOpen;
        Requests { hardware, timer: Some(TimerCommand::Start), state_update: Some(State::DoorOpen) }
    }

    fn on_floor_arrival(&mut self, new_floor: u8) -> (requests: Requests)
        requires
            old(self).wf(),
            new_floor < old(self)@.orders.n_floors(),
        ensures
            final(self)@ == after_floor_arrival(old(self)@, new_floor).next,
            requests@ == after_floor_arrival(old(self)@, new_floor).effects,
    {
        let state: State = self.info.state;
        self.info.floor = new_floor;
        match state {
            State::Moving => {
                if should_stop(self) {
                    self.info.responsible_orders.clear_orders_on_floor(new_floor);
                    self.open_door()
                } else {
                    let mut hardware: Vec<HardwareCommand> = Vec::new();
                    hardware.push(HardwareCommand::FloorLight { floor: new_floor });
                    assert(hardware@ =~= seq![HardwareCommand::FloorLight { floor: new_floor }]);
                    Requests { hardware, timer: None, state_update: Some(State::Moving) }
                }
            },
            State::Initializing => {
                let mut hardware: Vec<HardwareCommand> = Vec::new();
                hardware.push(HardwareCommand::FloorLight { floor: new_floor });
                hardware.push(HardwareCommand::DoorLight { on: true });
                hardware.push(HardwareCommand::MotorDirection { dirn: DIRN_STOP });
                assert(hardware@ =~= first_arrival_effects(new_floor).hardware);
                self.info.state = State::DoorOpen;
                Requests {
                    hardware,
                    timer: Some(TimerCommand::Start),
                    state_update: Some(State::DoorOpen),
                }
            },
            State::MovTimedOut => {
                self.info.responsible_orders.change_all_assigned_hall_order_status(
                    OrderType::Active,
                );
                self.open_door()
            },
            _ => {
                let mut hardware: Vec<HardwareCommand> = Vec::new();
                hardware.push(HardwareCommand::FloorLight { floor: new_floor });
                assert(hardware@ =~= seq![HardwareCommand::FloorLight { floor: new_floor }]);
                Requests { hardware, timer: None, state_update: None }
            },
        }
    }

    fn on_new_order(&mut self, btn: CallButton) -> (requests: Requests)
        requires
            old(self).wf(),
            btn.valid(old(self)@.orders.n_floors()),
        ensures
            final(self)@ == after_new_order(old(self)@, btn).next,
            requests@ == after_new_order(old(self)@, btn).effects,
    {
        match self.info.state {
            State::DoorOpen => {
                self.info.responsible_orders.set_active(btn);
                let timer: Option<TimerCommand> = if self.info.floor == btn.floor {
                    Some(TimerCommand::Start)
                } else {
                    None
                };
                Requests { hardware: Vec::new(), timer, state_update: None }
            },
            State::Obstructed | State::Moving | State::ObstrTimedOut => {
                self.info.responsible_orders.set_active(btn);
                Requests { hardware: Vec::new(), timer: None, state_update: None }
            },
            State::Idle => {
                self.info.responsible_orders.set_active(btn);
                let mut hardware: Vec<HardwareCommand> = Vec::new();
                if self.info.floor == btn.floor {
                    hardware.push(HardwareCommand::DoorLight { on: true });
                    assert(hardware@ =~= seq![HardwareCommand::DoorLight { on: true }]);
                    self.info.state = State::DoorOpen;
                    Requests {
                        hardware,
                        timer: Some(TimerCommand::Start),
                        state_update: Some(State::DoorOpen),
                    }
                } else {
                    let new_dirn: u8 = choose_direction(self);
                    hardware.push(HardwareCommand::MotorDirection { dirn: new_dirn });
                    assert(hardware@ =~= seq![HardwareCommand::MotorDirection { dirn: new_dirn }]);
                    self.info.state = State::Moving;
                    self.info.dirn = new_dirn;
                    Requests { hardware, timer: None, state_update: Some(State::Moving) }
                }
            },
            State::Initializing | State::MovTimedOut => Requests::nothing(),
        }
    }

    fn on_obstruction_signal(&mut self, active: bool) -> (requests: Requests)
        ensures
            final(self)@ == after_obstruction_signal(old(self)@, active).next,
            requests@ == after_obstruction_signal(old(self)@, active).effects,
    {
        let state: State = self.info.state;
        if state == State::DoorOpen || state == State::Obstructed || state == State::ObstrTimedOut {
            if active {
                self.info.state = State::Obstructed;
                Requests {
                    hardware: Vec::new(),
                    timer: Some(TimerCommand::Cancel),
                    state_update: Some(State::Obstructed),
                }
            } else {
                self.info.state = State::DoorOpen;
                Requests {
                    hardware: Vec::new(),
                    timer: Some(TimerCommand::Start),
                    state_update: Some(State::DoorOpen),
                }
            }
        } else {
            Requests::nothing()
        }
    }

    fn on_state_timeout(&mut self) -> (requests: Requests)
        requires
            old(self).wf(),
        ensures
            final(self)@ == after_state_timeout(old(self)@).next,
            requests@ == after_state_timeout(old(self)@).effects,
    {
        match self.info.state {
            State::Obstructed => {
                self.info.state = State::ObstrTimedOut;
                Requests {
                    hardware: Vec::new(),
                    timer: None,
                    state_update: Some(State::ObstrTimedOut),
                }
            },
            State::Moving | State::Initializing => {
                self.info.state = State::MovTimedOut;
                self.info.responsible_orders.change_all_assigned_hall_order_status(
                    OrderType::Pending,
                );
                Requests { hardware: Vec::new(), timer: None, state_update: Some(State::MovTimedOut) }
            },
            _ => Requests::nothing(),
        }
    }
}

/// An elevator in the state that `elev_info` describes, for simulation.
pub fn create_simulation_elevator(elev_info: ElevatorInfo) -> (elevator: Elevator)
    ensures
        elevator@ == elev_info@,
{
    Elevator::create_simulation_elevator(elev_info)
}

/// Handling an event keeps a well-formed elevator well formed.
pub proof fn lemma_step_preserves_wf(s: ElevatorInfoView, event: Event)
    requires
        s.wf(),
        event.valid(s.orders.n_floors()),
    ensures
        step(s, event).next.wf(),
        step(s, event).next.orders.n_floors() == s.orders.n_floors(),
        step(s, event).next.id == s.id,
{
}

/// Handling an event keeps the invariant of the state machine.
pub proof fn lemma_step_preserves_inv(s: ElevatorInfoView, event: Event)
    requires
        s.inv(),
        event.valid(s.orders.n_floors()),
    ensures
        step(s, event).next.inv(),
{
    lemma_step_preserves_wf(s, event);
    let next = step(s, event).next;
    let floor = s.floor as int;
    match event {
        Event::OnDoorTimeOut => {
            if s.state == State::DoorOpen {
                let orders = s.orders.cleared_floor(floor);
                if next.state == State::Idle {
                    assert forall|f: int| 0 <= f < orders.n_floors() implies !#[trigger] orders.active_at(
                        f,
                    ) by {
                        if orders.active_at(f) {
                            lemma_active_floor_is_ahead(orders, floor, f);
                        }
                    }
                }
            }
        },
        Event::OnFloorArrival { floor } => {},
        Event::OnNewOrder { btn } => {
            let orders = s.orders.with_status(btn, OrderType::Active);
            if s.state == State::Idle && s.floor != btn.floor {
                assert(orders.active_at(btn.floor as int));
                lemma_active_floor_is_ahead(orders, floor, btn.floor as int);
            } else if s.state == State::Moving {
                lemma_new_order_keeps_orders_ahead(s.orders, btn, floor);
            }
        },
        Event::OnObstructionSignal { active } => {},
        Event::OnStateTimeOut => {},
    }
}

/// An `Active` order at a floor other than `floor` lies above or below it.
pub proof fn lemma_active_floor_is_ahead(orders: OrderListView, floor: int, other: int)
    requires
        orders.wf(),
        0 <= other < orders.n_floors(),
        orders.active_at(other),
    ensures
        other < floor ==> orders_below(orders, floor),
        other > floor ==> orders_above(orders, floor),
{
    if orders.up[other] == OrderType::Active {
    } else if orders.down[other] == OrderType::Active {
    } else {
        assert(orders.inside[other] == OrderType::Active);
    }
}

/// Accepting one more order takes no `Active` order away from above or
/// below a floor.
pub proof fn lemma_new_order_keeps_orders_ahead(orders: OrderListView, btn: CallButton, floor: int)
    requires
        orders.wf(),
        btn.valid(orders.n_floors()),
        0 <= floor,
    ensures
        orders_above(orders, floor) ==> orders_above(
            orders.with_status(btn, OrderType::Active),
            floor,
        ),
        orders_below(orders, floor) ==> orders_below(
            orders.with_status(btn, OrderType::Active),
            floor,
        ),
{
    let after = orders.with_status(btn, OrderType::Active);
    if orders_above(orders, floor) {
        if queue_active_above(orders.up, floor) {
            let i = choose|i: int| floor < i < orders.up.len() && #[trigger] orders.up[i] == OrderType::Active;
            assert(after.up[i] == OrderType::Active);
        } else if queue_active_above(orders.down, floor) {
            let i = choose|i: int|
                floor < i < orders.down.len() && #[trigger] orders.down[i] == OrderType::Active;
            assert(after.down[i] == OrderType::Active);
        } else {
            let i = choose|i: int|
                floor < i < orders.inside.len() && #[trigger] orders.inside[i] == OrderType::Active;
            assert(after.inside[i] == OrderType::Active);
        }
    }
    if orders_below(orders, floor) {
        if queue_active_below(orders.up, floor) {
            let i = choose|i: int|
                0 <= i < floor && i < orders.up.len() && #[trigger] orders.up[i] == OrderType::Active;
            assert(after.up[i] == OrderType::Active);
        } else if queue_active_below(orders.down, floor) {
            let i = choose|i: int|
                0 <= i < floor && i < orders.down.len() && #[trigger] orders.down[i] == OrderType::Active;
            assert(after.down[i] == OrderType::Active);
        } else {
            let i = choose|i: int|
                0 <= i < floor && i < orders.inside.len() && #[trigger] orders.inside[i] == OrderType::Active;
            assert(after.inside[i] == OrderType::Active);
        }
    }
}

/// The elevator after it has handled `events`, one after the other.
pub open spec fn run(s: ElevatorInfoView, events: Seq<Event>) -> ElevatorInfoView
    decreases events.len(),
{
    if events.len() == 0 {
        s
    } else {
        step(run(s, events.drop_last()), events.last()).next
    }
}

/// Whatever events an elevator has handled since it was switched on, it
/// satisfies the invariant: if it is idle, none of its orders is `Active`,
/// and if it moves, an `Active` order lies ahead.
pub proof fn lemma_reachable_inv(id: usize, n_floors: nat, events: Seq<Event>)
    requires
        n_floors <= 255,
        forall|k: int| 0 <= k < events.len() ==> (#[trigger] events[k]).valid(n_floors),
    ensures
        run(ElevatorInfoView::initial(id, n_floors), events).inv(),
        run(ElevatorInfoView::initial(id, n_floors), events).orders.n_floors() == n_floors,
    decreases events.len(),
{
    let start = ElevatorInfoView::initial(id, n_floors);
    if events.len() == 0 {
        lemma_initial_inv(id, n_floors);
    } else {
        assert forall|k: int| 0 <= k < events.drop_last().len() implies (
        #[trigger] events.drop_last()[k]).valid(n_floors) by {
            assert(events.drop_last()[k] == events[k]);
        }
        lemma_reachable_inv(id, n_floors, events.drop_last());
        let before = run(start, events.drop_last());
        lemma_step_preserves_wf(before, events.last());
        lemma_step_preserves_inv(before, events.last());
    }
}

/// An elevator that has just been switched on satisfies the invariant.
pub proof fn lemma_initial_inv(id: usize, n_floors: nat)
    requires
        n_floors <= 255,
    ensures
        ElevatorInfoView::initial(id, n_floors).inv(),
{
}

/// Hearing an order twice does no harm: an elevator that already holds the
/// order of `btn` as `Active` is left as it is by the order, and nothing is
/// sent but the restart of the door timer if the door is open at the floor
/// of the order.
pub proof fn lemma_known_order_changes_nothing(s: ElevatorInfoView, btn: CallButton)
    requires
        s.inv(),
        btn.valid(s.orders.n_floors()),
        s.orders.status(btn) == OrderType::Active,
    ensures
        ({
            let again = step(s, (Event::OnNewOrder { btn }));
            &&& again.next == s
            &&& again.effects.hardware == Seq::<HardwareCommand>::empty()
            &&& again.effects.state_update is None
            &&& again.effects.timer == (if s.state == State::DoorOpen && s.floor == btn.floor {
                Some(TimerCommand::Start)
            } else {
                None
            })
        }),
{
    let again = step(s, Event::OnNewOrder { btn });
    let orders = s.orders.with_status(btn, OrderType::Active);
    assert(orders.up =~= s.orders.up);
    assert(orders.down =~= s.orders.down);
    assert(orders.inside =~= s.orders.inside);
    if s.state == State::Idle {
        assert(s.orders.active_at(btn.floor as int));
    }
}

/// A moving elevator that stops at a floor has no order left there: all
/// three slots of the floor are empty after the arrival was handled.
pub proof fn lemma_stop_clears_floor(s: ElevatorInfoView, floor: u8)
    requires
        s.wf(),
        floor < s.orders.n_floors(),
        s.state == State::Moving,
        stops_at(s.orders, s.dirn, floor as int),
    ensures
        ({
            let next = step(s, (Event::OnFloorArrival { floor })).next;
            &&& next.state == State::DoorOpen
            &&& next.floor == floor
            &&& next.orders.up[floor as int] == OrderType::NoOrder
            &&& next.orders.down[floor as int] == OrderType::NoOrder
            &&& next.orders.inside[floor as int] == OrderType::NoOrder
        }),
{
}

} // verus!
