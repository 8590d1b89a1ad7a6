//! The call button lights: what they should show, and the commands that
//! make them show it.
use crate::global_elevator_info::connected_elevators::ConnectedElevatorInfo;
use crate::local_elevator::elevio::elev::HardwareCommand;
use crate::local_elevator::elevio::poll::CallButton;
use crate::local_elevator::fsm::order_list::{OrderList, OrderListView, OrderType};
use vstd::prelude::*;

verus! {

/// The `index`-th button of a building, counted floor by floor, on each
/// floor up, down and cab.
pub open spec fn button(index: int) -> CallButton {
    CallButton { floor: (index / 3) as u8, call: (index % 3) as u8 }
}

/// The buttons of a building of `n_floors` floors, floor by floor, on each
/// floor up, down and cab.
pub open spec fn buttons(n_floors: nat) -> Seq<CallButton> {
    Seq::new(3 * n_floors, |i: int| button(i))
}

/// The light commands that take the lights from `old_lights` to
/// `new_lights`: one command for each button whose light changes, floor by
/// floor, on each floor up, down and cab. A light is on where the order is
/// `Active`.
pub open spec fn light_changes(old_lights: OrderListView, new_lights: OrderListView) -> Seq<
    HardwareCommand,
> {
    buttons(old_lights.n_floors()).filter(light_differs(old_lights, new_lights)).map_values(
        light_command(new_lights),
    )
}

/// The buttons whose light is on in one of the two lists and off in the other.
pub open spec fn light_differs(old_lights: OrderListView, new_lights: OrderListView) -> spec_fn(
    CallButton,
) -> bool {
    |b: CallButton|
        (old_lights.status(b) == OrderType::Active) != (new_lights.status(b) == OrderType::Active)
}

/// The command that sets the light of a button as `lights` has it.
pub open spec fn light_command(lights: OrderListView) -> spec_fn(CallButton) -> HardwareCommand {
    |b: CallButton|
        (HardwareCommand::CallButtonLight {
            floor: b.floor,
            call: b.call,
            on: lights.status(b) == OrderType::Active,
        })
}

/// The commands that take the call button lights from `old_lights` to
/// `set_lights`: one for each light that changes.
pub fn light_commands(old_lights: &OrderList, set_lights: &OrderList) -> (commands: Vec<
    HardwareCommand,
>)
    requires
        old_lights.wf(),
        set_lights.wf(),
        set_lights@.n_floors() == old_lights@.n_floors(),
    ensures
        commands@ == light_changes(old_lights@, set_lights@),
{
    let n_floors: usize = old_lights.num_floors();
    let ghost grid = buttons(old_lights@.n_floors());
    let ghost changed = light_differs(old_lights@, set_lights@);
    let ghost command = light_command(set_lights@);
    let mut commands: Vec<HardwareCommand> = Vec::new();
    let mut f: usize = 0;
    proof {
        reveal(Seq::filter);
        assert(grid.take(0) =~= Seq::<CallButton>::empty());
        assert(commands@ =~= grid.take(0).filter(changed).map_values(command));
    }
    while f < n_floors
        invariant
            f <= n_floors,
            n_floors == old_lights@.n_floors(),
            old_lights.wf(),
            set_lights.wf(),
            set_lights@.n_floors() == old_lights@.n_floors(),
            grid == buttons(old_lights@.n_floors()),
            changed == light_differs(old_lights@, set_lights@),
            command == light_command(set_lights@),
            commands@ == grid.take(3 * f).filter(changed).map_values(command),
        decreases n_floors - f,
    {
        let mut c: u8 = 0;
        while c < 3
            invariant
                f < n_floors,
                c <= 3,
                n_floors == old_lights@.n_floors(),
                old_lights.wf(),
                set_lights.wf(),
                set_lights@.n_floors() == old_lights@.n_floors(),
                grid == buttons(old_lights@.n_floors()),
                changed == light_differs(old_lights@, set_lights@),
                command == light_command(set_lights@),
                commands@ == grid.take(3 * f + c).filter(changed).map_values(command),
            decreases 3 - c,
        {
            let btn = CallButton { floor: f as u8, call: c };
            let on: bool = set_lights.is_active(btn);
            proof {
                let k = 3 * f + c;
                assert(grid[k] == btn);
                assert(grid.take(k + 1) =~= grid.take(k).push(btn));
                grid.take(k).lemma_filter_push(btn, changed);
                assert(grid.take(k).filter(changed).push(btn).map_values(command) =~= grid.take(
                    k,
                ).filter(changed).map_values(command).push(command(btn)));
            }
            if old_lights.is_active(btn) != on {
                commands.push(HardwareCommand::CallButtonLight { floor: btn.floor, call: btn.call, on });
            }
            c += 1;
        }
        f += 1;
    }
    assert(grid.take(3 * n_floors) =~= grid);
    commands
}

/// Sets the call button lights of the building: it remembers the lights as
/// it has set them last and asks the hardware only for what changes.
#[derive(Debug)]
pub struct LightSetter {
    old_lights: OrderList,
}

impl View for LightSetter {
    type V = OrderListView;

    closed spec fn view(&self) -> OrderListView {
        self.old_lights@
    }
}

impl LightSetter {
    /// The light setter of a building of `num_floors` floors whose call
    /// button lights are all off.
    pub fn new(num_floors: u8) -> (setter: LightSetter)
        ensures
            setter@ == OrderListView::empty(num_floors as nat),
            setter@.wf(),
    {
        LightSetter { old_lights: OrderList::new(num_floors) }
    }

    /// Number of floors of the building.
    pub fn num_floors(&self) -> (n: usize)
        ensures
            n == self@.n_floors(),
    {
        self.old_lights.num_floors()
    }

    /// Brings the lights up to date with the fleet view `global_info` and
    /// returns the commands that do so.
    pub fn on_fleet_view(&mut self, global_info: &ConnectedElevatorInfo) -> (commands: Vec<
        HardwareCommand,
    >)
        requires
            old(self)@.wf(),
            global_info.wf(),
            global_info@.n_floors() == old(self)@.n_floors(),
        ensures
            final(self)@ == global_info@.lights(),
            final(self)@.wf(),
            commands@ == light_changes(old(self)@, global_info@.lights()),
    {
        let set_lights: OrderList = global_info.get_orders_for_lights();
        let commands = light_commands(&self.old_lights, &set_lights);
        self.old_lights = set_lights;
        commands
    }
}

} // verus!
