//! The fleet view: this node's replica of the latest snapshot of every
//! elevator, reconciled from local updates, gossip and pending marks.
use crate::local_elevator::elevio::poll::{CallButton, CAB, HALL_DOWN, HALL_UP};
use crate::local_elevator::fsm::elevatorfsm::{ElevatorInfo, ElevatorInfoView, State};
use crate::local_elevator::fsm::order_list::{
    lemma_merge_follows_remote_active,
    lemma_merge_twice,
    lemma_pending_mark_keeps_active,
    OrderList,
    OrderListView,
    OrderType,
    MAX_FLOORS,
};
use vstd::prelude::*;

verus! {

/// The `index`-th hall button of a building, counted floor by floor, on each
/// floor first up and then down.
pub open spec fn hall_button(index: int) -> CallButton {
    CallButton { floor: (index / 2) as u8, call: (index % 2) as u8 }
}

/// The order is assigned to the elevator, confirmed or not.
pub open spec fn is_assigned(status: OrderType) -> bool {
    status == OrderType::Active || status == OrderType::Pending
}

/// The hall buttons of a building of `n_floors` floors, floor by floor, on
/// each floor first up and then down.
pub open spec fn hall_buttons(n_floors: nat) -> Seq<CallButton> {
    Seq::new(2 * n_floors, |i: int| hall_button(i))
}

/// The buttons whose order is assigned in `orders`.
pub open spec fn assigned_in(orders: OrderListView) -> spec_fn(CallButton) -> bool {
    |b: CallButton| is_assigned(orders.status(b))
}

/// The hall orders of `orders` that are `Active` or `Pending`, floor by
/// floor, on each floor first up and then down.
pub open spec fn assigned_hall_orders(orders: OrderListView) -> Seq<CallButton> {
    hall_buttons(orders.n_floors()).filter(assigned_in(orders))
}

/// A hall light slot: `Active` if either list holds the order as `Active`.
pub open spec fn active_in_either(first: OrderType, second: OrderType) -> OrderType {
    if first == OrderType::Active || second == OrderType::Active {
        OrderType::Active
    } else {
        OrderType::NoOrder
    }
}

/// The list that holds, as `Active`, the hall orders that are `Active` in
/// `first` or in `second`, and nothing else.
pub open spec fn active_union(first: OrderListView, second: OrderListView) -> OrderListView {
    OrderListView {
        up: Seq::new(first.up.len(), |i: int| active_in_either(first.up[i], second.up[i])),
        down: Seq::new(first.down.len(), |i: int| active_in_either(first.down[i], second.down[i])),
        inside: Seq::new(first.inside.len(), |i: int| OrderType::NoOrder),
    }
}

/// The snapshot heard last of the elevator `id` in `update`, if any.
pub open spec fn latest_of(update: Seq<ElevatorInfoView>, id: int) -> Option<ElevatorInfoView>
    decreases update.len(),
{
    if update.len() == 0 {
        None
    } else if update.last().id == id {
        Some(update.last())
    } else {
        latest_of(update.drop_last(), id)
    }
}

/// The remote elevator's state says that it has just given up: it was not
/// timed out on the way and now is, or was not timed out obstructed and now
/// is.
pub open spec fn gave_up(before: State, now: State) -> bool {
    ||| before != State::MovTimedOut && now == State::MovTimedOut
    ||| before != State::ObstrTimedOut && now == State::ObstrTimedOut
}

/// A peer's slot after gossip: what was held of the peer, `held`, and what
/// was heard of it now, `heard`. A peer not heard of is lost and its slot
/// emptied; a new peer is stored as heard; of a known peer the heard
/// snapshot is stored, with the order list merged slot by slot.
pub open spec fn reconciled(
    held: Option<ElevatorInfoView>,
    heard: Option<ElevatorInfoView>,
) -> Option<ElevatorInfoView> {
    match (held, heard) {
        (Some(l), Some(r)) => Some(ElevatorInfoView { orders: l.orders.merged(r.orders), ..r }),
        (Some(l), None) => None,
        (None, _) => heard,
    }
}

/// The hall orders that this node has to take care of after gossip on one
/// peer: all assigned hall orders held of a peer that is lost or has just
/// given up.
pub open spec fn orders_to_take_over(
    held: Option<ElevatorInfoView>,
    heard: Option<ElevatorInfoView>,
) -> Seq<CallButton> {
    match (held, heard) {
        (Some(l), Some(r)) => if gave_up(l.state, r.state) {
            assigned_hall_orders(l.orders)
        } else {
            seq![]
        },
        (Some(l), None) => assigned_hall_orders(l.orders),
        (None, _) => seq![],
    }
}

/// Mathematical model of a [`ConnectedElevatorInfo`]: the local identity and
/// one slot per identity of the cluster.
pub struct FleetView {
    pub local_id: usize,
    pub slots: Seq<Option<ElevatorInfoView>>,
}

impl FleetView {
    /// Number of floors of the building, as the local elevator knows it.
    pub open spec fn n_floors(self) -> nat {
        self.slots[self.local_id as int]->0.orders.n_floors()
    }

    /// The local slot is filled, and every known elevator has a well-formed
    /// order list of the building's floor count.
    pub open spec fn wf(self) -> bool {
        &&& self.local_id < self.slots.len()
        &&& self.slots[self.local_id as int] is Some
        &&& forall|i: int|
            0 <= i < self.slots.len() ==> (#[trigger] self.slots[i] matches Some(e) ==> e.orders.wf()
                && e.orders.n_floors() == self.n_floors())
    }

    /// `info` can be stored in this view: its order list is well formed and
    /// of the building's floor count.
    pub open spec fn fits(self, info: ElevatorInfoView) -> bool {
        info.orders.wf() && info.orders.n_floors() == self.n_floors()
    }

    /// `update` is gossip that this view can take in: every snapshot fits and
    /// is of an identity of the cluster.
    pub open spec fn accepts(self, update: Seq<ElevatorInfoView>) -> bool {
        forall|k: int|
            0 <= k < update.len() ==> self.fits(#[trigger] update[k]) && update[k].id
                < self.slots.len()
    }

    /// Status of `button` in the slot of `id`, if the slot is filled.
    pub open spec fn status(self, id: int, button: CallButton) -> Option<OrderType> {
        match self.slots[id] {
            Some(e) => Some(e.orders.status(button)),
            None => None,
        }
    }

    /// The elevator `id` is known and holds the order of `button` as `Active`.
    pub open spec fn is_active(self, id: int, button: CallButton) -> bool {
        self.status(id, button) == Some(OrderType::Active)
    }

    /// The elevator `id` is known and holds the order of `button` as `Pending`.
    pub open spec fn is_pending(self, id: int, button: CallButton) -> bool {
        self.status(id, button) == Some(OrderType::Pending)
    }

    /// Some known elevator of an identity below `upto` holds the order of
    /// `button` as `Active`.
    pub open spec fn any_active_below(self, button: CallButton, upto: int) -> bool {
        exists|i: int| 0 <= i < upto && #[trigger] self.is_active(i, button)
    }

    /// Some known elevator holds the order of `button` as `Active`.
    pub open spec fn any_active(self, button: CallButton) -> bool {
        self.any_active_below(button, self.slots.len() as int)
    }

    /// The view after the local elevator published `info`.
    pub open spec fn after_local_update(self, info: ElevatorInfoView) -> FleetView {
        FleetView { slots: self.slots.update(self.local_id as int, Some(info)), ..self }
    }

    /// The view after marking `(id, button)`: the slot of a known elevator
    /// becomes `Pending` (`should_set`) or empty (`!should_set`) unless it is
    /// `Active`; of an unknown elevator nothing is recorded.
    pub open spec fn after_set_pending(self, should_set: bool, id: int, button: CallButton) -> FleetView {
        match self.slots[id] {
            Some(e) => FleetView {
                slots: self.slots.update(
                    id,
                    Some(ElevatorInfoView { orders: e.orders.with_pending(should_set, button), ..e }),
                ),
                ..self
            },
            None => self,
        }
    }

    /// The view after the gossip `update`, the snapshots of the peers that
    /// are alive: the local slot stays, every other is [`reconciled`] with
    /// what was heard of its elevator.
    pub open spec fn after_remote_update(self, update: Seq<ElevatorInfoView>) -> FleetView {
        FleetView {
            slots: Seq::new(
                self.slots.len(),
                |i: int|
                    if i == self.local_id {
                        self.slots[i]
                    } else {
                        reconciled(self.slots[i], latest_of(update, i))
                    },
            ),
            ..self
        }
    }

    /// The hall orders to take over after the gossip `update`, by the slots
    /// below `upto`, in the order of the slots.
    pub open spec fn takeovers_below(self, update: Seq<ElevatorInfoView>, upto: int) -> Seq<CallButton>
        decreases upto,
    {
        if upto <= 0 {
            seq![]
        } else {
            let i = upto - 1;
            let before = self.takeovers_below(update, i);
            if i == self.local_id {
                before
            } else {
                before + orders_to_take_over(self.slots[i], latest_of(update, i))
            }
        }
    }

    /// The hall orders to take over after the gossip `update`: slot by slot,
    /// the local one left out, [`orders_to_take_over`].
    pub open spec fn takeovers(self, update: Seq<ElevatorInfoView>) -> Seq<CallButton> {
        self.takeovers_below(update, self.slots.len() as int)
    }

    /// Status of a hall light: on where some known elevator holds the order
    /// as `Active`.
    pub open spec fn hall_light(self, button: CallButton) -> OrderType {
        if self.any_active(button) {
            OrderType::Active
        } else {
            OrderType::NoOrder
        }
    }

    /// The lights of the building: the hall lights show the hall orders of
    /// the whole cluster, the cab lights the cab orders of the local elevator.
    pub open spec fn lights(self) -> OrderListView {
        OrderListView {
            up: Seq::new(
                self.n_floors(),
                |f: int| self.hall_light(CallButton { floor: f as u8, call: HALL_UP }),
            ),
            down: Seq::new(
                self.n_floors(),
                |f: int| self.hall_light(CallButton { floor: f as u8, call: HALL_DOWN }),
            ),
            inside: self.slots[self.local_id as int]->0.orders.inside,
        }
    }

    /// The cluster as the gossip `update` and the local elevator describe
    /// it: the local slot, and for every other identity what was heard of it.
    pub open spec fn as_heard(self, update: Seq<ElevatorInfoView>) -> FleetView {
        FleetView {
            slots: Seq::new(
                self.slots.len(),
                |i: int|
                    if i == self.local_id {
                        self.slots[i]
                    } else {
                        latest_of(update, i)
                    },
            ),
            ..self
        }
    }

    /// No hall order is held as `Active` by two elevators.
    pub open spec fn single_owner(self) -> bool {
        forall|button: CallButton, i: int, j: int|
            #![trigger self.is_active(i, button), self.is_active(j, button)]
            button.is_hall() && button.valid(self.n_floors()) && 0 <= i < self.slots.len() && 0 <= j
                < self.slots.len() && self.is_active(i, button) && self.is_active(j, button) ==> i
                == j
    }
}

/// The hall orders of `orders_to_assign` that are `Active` or `Pending`: the
/// orders that someone else has to serve when their elevator is lost.
pub fn assign_orders_locally(orders_to_assign: OrderList) -> (call_buttons_to_assign: Vec<CallButton>)
    requires
        orders_to_assign.wf(),
    ensures
        call_buttons_to_assign@ == assigned_hall_orders(orders_to_assign@),
{
    let n_floors: usize = orders_to_assign.num_floors();
    let ghost grid = hall_buttons(orders_to_assign@.n_floors());
    let ghost pred = assigned_in(orders_to_assign@);
    let mut call_buttons_to_assign: Vec<CallButton> = Vec::new();
    let mut f: usize = 0;
    proof {
        lemma_filter_of_nothing(grid, pred);
    }
    while f < n_floors
        invariant
            f <= n_floors,
            n_floors == orders_to_assign@.n_floors(),
            orders_to_assign.wf(),
            grid == hall_buttons(orders_to_assign@.n_floors()),
            pred == assigned_in(orders_to_assign@),
            call_buttons_to_assign@ == grid.take(2 * f).filter(pred),
        decreases n_floors - f,
    {
        let mut c: u8 = 0;
        while c < CAB
            invariant
                f < n_floors,
                c <= CAB,
                n_floors == orders_to_assign@.n_floors(),
                orders_to_assign.wf(),
                grid == hall_buttons(orders_to_assign@.n_floors()),
                pred == assigned_in(orders_to_assign@),
                call_buttons_to_assign@ == grid.take(2 * f + c).filter(pred),
            decreases CAB - c,
        {
            let button = CallButton { floor: f as u8, call: c };
            proof {
                let k = 2 * f + c;
                assert(grid[k] == button);
                assert(grid.take(k + 1) =~= grid.take(k).push(button));
                grid.take(k).lemma_filter_push(button, pred);
            }
            if orders_to_assign.is_active(button) || orders_to_assign.is_pending(button) {
                call_buttons_to_assign.push(button);
            }
            c += 1;
        }
        f += 1;
    }
    assert(grid.take(2 * n_floors) =~= grid);
    call_buttons_to_assign
}

/// Filtering the empty beginning of a sequence gives the empty sequence.
proof fn lemma_filter_of_nothing<A>(grid: Seq<A>, pred: spec_fn(A) -> bool)
    ensures
        grid.take(0).filter(pred) == Seq::<A>::empty(),
{
    reveal(Seq::filter);
    assert(grid.take(0) =~= Seq::<A>::empty());
}

/// The list that holds, as `Active`, the hall orders that are `Active` in
/// `local_order_info` or in `remote_orders`, and nothing else.
pub fn merge_remote_active(local_order_info: OrderList, remote_orders: OrderList) -> (new_order_list:
    OrderList)
    requires
        local_order_info.wf(),
        remote_orders.wf(),
        remote_orders@.n_floors() == local_order_info@.n_floors(),
    ensures
        new_order_list.wf(),
        new_order_list@ == active_union(local_order_info@, remote_orders@),
{
    let n_floors: usize = local_order_info.num_floors();
    let mut new_order_list: OrderList = OrderList::new(n_floors as u8);
    let mut i: usize = 0;
    while i < n_floors
        invariant
            i <= n_floors,
            local_order_info.wf(),
            remote_orders.wf(),
            new_order_list.wf(),
            local_order_info@.n_floors() == n_floors,
            remote_orders@.n_floors() == n_floors,
            new_order_list@.n_floors() == n_floors,
            new_order_list@.inside == OrderListView::empty(n_floors as nat).inside,
            forall|j: int|
                0 <= j < i ==> new_order_list@.up[j] == active_in_either(
                    local_order_info@.up[j],
                    remote_orders@.up[j],
                ),
            forall|j: int|
                0 <= j < i ==> new_order_list@.down[j] == active_in_either(
                    local_order_info@.down[j],
                    remote_orders@.down[j],
                ),
            forall|j: int| i <= j < n_floors ==> new_order_list@.up[j] == OrderType::NoOrder,
            forall|j: int| i <= j < n_floors ==> new_order_list@.down[j] == OrderType::NoOrder,
        decreases n_floors - i,
    {
        if local_order_info.up_queue[i] == OrderType::Active || remote_orders.up_queue[i]
            == OrderType::Active {
            new_order_list.up_queue[i] = OrderType::Active;
        }
        if local_order_info.down_queue[i] == OrderType::Active || remote_orders.down_queue[i]
            == OrderType::Active {
            new_order_list.down_queue[i] = OrderType::Active;
        }
        i += 1;
    }
    assert(new_order_list@.up =~= active_union(local_order_info@, remote_orders@).up);
    assert(new_order_list@.down =~= active_union(local_order_info@, remote_orders@).down);
    assert(new_order_list@.inside =~= active_union(local_order_info@, remote_orders@).inside);
    new_order_list
}

/// The list with the values of `remote_orders`, the update received from an
/// elevator, in which the `Pending` marks of `local_order_info`, the local
/// knowledge of that elevator's orders, stay until the elevator confirms.
pub fn merge_remote_orders(local_order_info: OrderList, remote_orders: OrderList) -> (new_order_list:
    OrderList)
    requires
        local_order_info.wf(),
        remote_orders.wf(),
        remote_orders@.n_floors() == local_order_info@.n_floors(),
    ensures
        new_order_list.wf(),
        new_order_list@ == local_order_info@.merged(remote_orders@),
{
    let mut new_order_list: OrderList = local_order_info;
    new_order_list.merge_remote_orders(remote_orders);
    new_order_list
}

/// The fleet view of one node: for every identity of the cluster the latest
/// snapshot known of that elevator, or nothing if the elevator is unknown or
/// lost.
#[derive(Debug)]
pub struct ConnectedElevatorInfo {
    local_id: usize,
    connected_elevators: Vec<Option<ElevatorInfo>>,
}

/// The model of the snapshot in `slot`, if it holds one.
pub open spec fn slot_view(slot: Option<ElevatorInfo>) -> Option<ElevatorInfoView> {
    match slot {
        Some(e) => Some(e@),
        None => None,
    }
}

/// The models of the snapshots in `slots`.
pub open spec fn slot_views(slots: Seq<Option<ElevatorInfo>>) -> Seq<Option<ElevatorInfoView>> {
    Seq::new(slots.len(), |i: int| slot_view(slots[i]))
}

/// A copy of `slot`.
fn clone_slot(slot: &Option<ElevatorInfo>) -> (copy: Option<ElevatorInfo>)
    ensures
        slot_view(copy) == slot_view(*slot),
{
    match slot {
        Some(info) => Some(info.clone()),
        None => None,
    }
}

/// The models of the snapshots in `infos`.
pub open spec fn info_views(infos: Seq<ElevatorInfo>) -> Seq<ElevatorInfoView> {
    Seq::new(infos.len(), |i: int| infos[i]@)
}

impl View for ConnectedElevatorInfo {
    type V = FleetView;

    closed spec fn view(&self) -> FleetView {
        FleetView { local_id: self.local_id, slots: slot_views(self.connected_elevators@) }
    }
}

impl Clone for ConnectedElevatorInfo {
    fn clone(&self) -> (res: Self)
        ensures
            res@ == self@,
    {
        let slots = clone_slots(&self.connected_elevators);
        assert(slot_views(slots@) =~= slot_views(self.connected_elevators@));
        ConnectedElevatorInfo { local_id: self.local_id, connected_elevators: slots }
    }
}

/// A copy of `slots`.
fn clone_slots(slots: &Vec<Option<ElevatorInfo>>) -> (copy: Vec<Option<ElevatorInfo>>)
    ensures
        slot_views(copy@) == slot_views(slots@),
{
    let mut copy: Vec<Option<ElevatorInfo>> = Vec::new();
    let mut i: usize = 0;
    while i < slots.len()
        invariant
            i <= slots.len(),
            copy@.len() == i,
            forall|j: int| 0 <= j < i ==> slot_views(copy@)[j] == slot_views(slots@)[j],
        decreases slots.len() - i,
    {
        copy.push(clone_slot(&slots[i]));
        i += 1;
    }
    assert(slot_views(copy@) =~= slot_views(slots@));
    copy
}

/// `len` empty slots.
fn empty_slots(len: usize) -> (slots: Vec<Option<ElevatorInfo>>)
    ensures
        slots@.len() == len,
        forall|i: int| 0 <= i < len ==> slots@[i] is None,
{
    let mut slots: Vec<Option<ElevatorInfo>> = Vec::new();
    let mut i: usize = 0;
    while i < len
        invariant
            i <= len,
            slots@.len() == i,
            forall|j: int| 0 <= j < i ==> slots@[j] is None,
        decreases len - i,
    {
        slots.push(None);
        i += 1;
    }
    slots
}

/// The snapshot heard last of each identity below `len` in `remote_update`.
fn latest_seen(remote_update: &Vec<ElevatorInfo>, len: usize) -> (latest: Vec<Option<ElevatorInfo>>)
    requires
        forall|k: int| 0 <= k < remote_update@.len() ==> (#[trigger] remote_update@[k]).id < len,
    ensures
        latest@.len() == len,
        forall|i: int|
            0 <= i < len ==> #[trigger] slot_views(latest@)[i] == latest_of(
                info_views(remote_update@),
                i,
            ),
{
    let mut latest: Vec<Option<ElevatorInfo>> = empty_slots(len);
    let ghost update = info_views(remote_update@);
    let mut k: usize = 0;
    proof {
        assert(update.take(0) =~= Seq::<ElevatorInfoView>::empty());
    }
    while k < remote_update.len()
        invariant
            k <= remote_update.len(),
            latest@.len() == len,
            update == info_views(remote_update@),
            forall|k: int| 0 <= k < remote_update@.len() ==> (#[trigger] remote_update@[k]).id < len,
            forall|i: int|
                0 <= i < len ==> #[trigger] slot_views(latest@)[i] == latest_of(
                    update.take(k as int),
                    i,
                ),
        decreases remote_update.len() - k,
    {
        let elev: ElevatorInfo = remote_update[k].clone();
        let id: usize = elev.get_id();
        proof {
            assert(update.take(k + 1).drop_last() =~= update.take(k as int));
            assert(update.take(k + 1).last() == remote_update@[k as int]@);
            assert(remote_update@[k as int].id < len);
        }
        let ghost before = latest@;
        latest[id] = Some(elev);
        proof {
            assert forall|i: int| 0 <= i < len implies #[trigger] slot_views(latest@)[i]
                == latest_of(update.take(k + 1), i) by {
                if i != id {
                    assert(slot_views(latest@)[i] == slot_views(before)[i]);
                }
            }
        }
        k += 1;
    }
    assert(update.take(remote_update.len() as int) =~= update);
    latest
}

impl ConnectedElevatorInfo {
    /// See [`FleetView::wf`].
    pub open spec fn wf(&self) -> bool {
        self@.wf()
    }

    /// The fleet view of the node that drives `local_elev`, in a cluster of
    /// `max_number_of_elevators` identities: only the local elevator is known.
    pub fn new(local_elev: ElevatorInfo, max_number_of_elevators: usize) -> (fleet: ConnectedElevatorInfo)
        requires
            local_elev@.orders.wf(),
            local_elev@.id < max_number_of_elevators,
        ensures
            fleet.wf(),
            fleet@.single_owner(),
            fleet@.local_id == local_elev@.id,
            fleet@.slots == Seq::new(
                max_number_of_elevators as nat,
                |i: int|
                    if i == local_elev@.id {
                        Some(local_elev@)
                    } else {
                        None
                    },
            ),
    {
        let local_id: usize = local_elev.get_id();
        let ghost local = local_elev@;
        let mut connected_elevs: Vec<Option<ElevatorInfo>> = empty_slots(max_number_of_elevators);
        connected_elevs[local_id] = Some(local_elev);
        let fleet = ConnectedElevatorInfo { local_id, connected_elevators: connected_elevs };
        assert(fleet@.slots =~= Seq::new(
            max_number_of_elevators as nat,
            |i: int|
                if i == local.id {
                    Some(local)
                } else {
                    None
                },
        ));
        proof {
            lemma_lonely_fleet_has_single_owner(fleet@);
        }
        fleet
    }

    /// Identity of the local elevator.
    pub fn local_id(&self) -> (id: usize)
        ensures
            id == self@.local_id,
    {
        self.local_id
    }

    /// Number of identities of the cluster.
    pub fn max_number_of_elevators(&self) -> (len: usize)
        ensures
            len == self@.slots.len(),
    {
        self.connected_elevators.len()
    }

    /// Number of floors of the building.
    pub fn num_floors(&self) -> (n: usize)
        requires
            self.wf(),
        ensures
            n == self@.n_floors(),
            n <= MAX_FLOORS,
    {
        match &self.connected_elevators[self.local_id] {
            Some(local) => local.responsible_orders.num_floors(),
            None => 0,
        }
    }

    /// Tells whether `info` can be stored in this view.
    pub fn fits(&self, info: &ElevatorInfo) -> (ok: bool)
        requires
            self.wf(),
        ensures
            ok == self@.fits(info@),
    {
        info.responsible_orders.is_wf() && info.responsible_orders.num_floors() == self.num_floors()
    }

    /// Tells whether `remote_update` is gossip that this view can take in.
    pub fn accepts(&self, remote_update: &Vec<ElevatorInfo>) -> (ok: bool)
        requires
            self.wf(),
        ensures
            ok == self@.accepts(info_views(remote_update@)),
    {
        let mut k: usize = 0;
        while k < remote_update.len()
            invariant
                k <= remote_update.len(),
                self.wf(),
                forall|j: int|
                    0 <= j < k ==> self@.fits(#[trigger] info_views(remote_update@)[j])
                        && info_views(remote_update@)[j].id < self@.slots.len(),
            decreases remote_update.len() - k,
        {
            if !self.fits(&remote_update[k]) || remote_update[k].id
                >= self.connected_elevators.len() {
                assert(info_views(remote_update@)[k as int] == remote_update@[k as int]@);
                return false;
            }
            assert(info_views(remote_update@)[k as int] == remote_update@[k as int]@);
            k += 1;
        }
        true
    }

    /// Takes in gossip: `remote_update` holds the latest snapshot of every
    /// peer that is alive. Every slot but the local one is reconciled with
    /// it. Returns the hall orders that were held of peers that are lost or
    /// have just given up: this node has to take care of them.
    pub fn update_remote_elevator_info(&mut self, remote_update: Vec<ElevatorInfo>) -> (lost_orders:
        Vec<CallButton>)
        requires
            old(self).wf(),
            old(self)@.accepts(info_views(remote_update@)),
        ensures
            final(self).wf(),
            final(self)@ == old(self)@.after_remote_update(info_views(remote_update@)),
            lost_orders@ == old(self)@.takeovers(info_views(remote_update@)),
    {
        let len: usize = self.connected_elevators.len();
        let ghost update = info_views(remote_update@);
        let ghost before = self@;
        proof {
            assert forall|k: int| 0 <= k < remote_update@.len() implies (
            #[trigger] remote_update@[k]).id < len by {
                assert(update[k] == remote_update@[k]@);
            }
        }
        let mut fix_len_remote_elev_update: Vec<Option<ElevatorInfo>> = latest_seen(
            &remote_update,
            len,
        );
        let mut lost_orders: Vec<CallButton> = Vec::new();
        let mut i: usize = 0;
        while i < len
            invariant
                i <= len,
                len == before.slots.len(),
                before.wf(),
                before.accepts(update),
                self@.local_id == before.local_id,
                self@.slots.len() == len,
                fix_len_remote_elev_update@.len() == len,
                forall|j: int|
                    0 <= j < len ==> #[trigger] slot_views(fix_len_remote_elev_update@)[j]
                        == latest_of(update, j),
                forall|j: int|
                    0 <= j < i ==> #[trigger] self@.slots[j] == before.after_remote_update(
                        update,
                    ).slots[j],
                forall|j: int| i <= j < len ==> #[trigger] self@.slots[j] == before.slots[j],
                lost_orders@ == before.takeovers_below(update, i as int),
            decreases len - i,
        {
            proof {
                lemma_latest_fits(before, update, i as int);
                assert(slot_views(fix_len_remote_elev_update@)[i as int] == latest_of(update, i as int));
                assert(self@.slots[i as int] == before.slots[i as int]);
                assert(slot_views(self.connected_elevators@)[i as int] == before.slots[i as int]);
            }
            if i != self.local_id {
                let ghost slots_before = self.connected_elevators@;
                let heard: Option<ElevatorInfo> = clone_slot(&fix_len_remote_elev_update[i]);
                let held: Option<ElevatorInfo> = clone_slot(&self.connected_elevators[i]);
                match held {
                    None => {
                        self.connected_elevators[i] = heard;
                    },
                    Some(existing_info) => {
                        match heard {
                            None => {
                                let mut lost = assign_orders_locally(existing_info.responsible_orders);
                                lost_orders.append(&mut lost);
                                self.connected_elevators[i] = None;
                            },
                            Some(remote_info) => {
                                if (existing_info.state != State::MovTimedOut && remote_info.state
                                    == State::MovTimedOut) || (existing_info.state
                                    != State::ObstrTimedOut && remote_info.state
                                    == State::ObstrTimedOut) {
                                    let mut lost = assign_orders_locally(
                                        existing_info.responsible_orders.clone(),
                                    );
                                    lost_orders.append(&mut lost);
                                }
                                let merged = ElevatorInfo {
                                    id: remote_info.id,
                                    state: remote_info.state,
                                    dirn: remote_info.dirn,
                                    floor: remote_info.floor,
                                    responsible_orders: merge_remote_orders(
                                        existing_info.responsible_orders,
                                        remote_info.responsible_orders,
                                    ),
                                };
                                self.connected_elevators[i] = Some(merged);
                            },
                        }
                    },
                }
                proof {
                    assert(self@.slots[i as int] == reconciled(
                        before.slots[i as int],
                        latest_of(update, i as int),
                    ));
                    assert forall|j: int| 0 <= j < len && j != i implies #[trigger] self@.slots[j]
                        == slot_views(slots_before)[j] by {}
                }
            }
            i += 1;
        }
        proof {
            assert(self@.slots =~= before.after_remote_update(update).slots);
            lemma_remote_update_keeps_wf(before, update);
        }
        lost_orders
    }

    /// Stores the snapshot that the local elevator has published.
    pub fn update_local_elevator_info(&mut self, local_update: ElevatorInfo)
        requires
            old(self).wf(),
            old(self)@.fits(local_update@),
        ensures
            final(self).wf(),
            final(self)@ == old(self)@.after_local_update(local_update@),
    {
        let ghost before = self@;
        let ghost info = local_update@;
        let id: usize = self.local_id;
        self.connected_elevators[id] = Some(local_update);
        proof {
            assert(self@.slots =~= before.after_local_update(info).slots);
            assert forall|i: int| 0 <= i < self@.slots.len() implies (
            #[trigger] self@.slots[i] matches Some(e) ==> e.orders.wf() && e.orders.n_floors()
                == self@.n_floors()) by {
                if i != id {
                    assert(self@.slots[i] == before.slots[i]);
                }
            }
        }
    }

    /// Marks the order `(id, button)` as handed to the elevator `id`
    /// (`should_set`), or takes the mark back (`!should_set`). An `Active`
    /// order is never changed by it, and of an unknown elevator nothing is
    /// recorded.
    pub fn set_to_pending(&mut self, should_set: bool, id: usize, button: CallButton)
        requires
            old(self).wf(),
            id < old(self)@.slots.len(),
            button.valid(old(self)@.n_floors()),
        ensures
            final(self).wf(),
            final(self)@ == old(self)@.after_set_pending(should_set, id as int, button),
    {
        let ghost before = self@;
        proof {
            assert(slot_views(self.connected_elevators@)[id as int] == before.slots[id as int]);
        }
        let held: Option<ElevatorInfo> = clone_slot(&self.connected_elevators[id]);
        match held {
            Some(mut elev_info) => {
                elev_info.responsible_orders.set_pending(should_set, button);
                self.connected_elevators[id] = Some(elev_info);
                proof {
                    assert(self@.slots =~= before.after_set_pending(
                        should_set,
                        id as int,
                        button,
                    ).slots);
                    assert forall|i: int| 0 <= i < self@.slots.len() implies (
                    #[trigger] self@.slots[i] matches Some(e) ==> e.orders.wf()
                        && e.orders.n_floors() == self@.n_floors()) by {
                        if i != id {
                            assert(self@.slots[i] == before.slots[i]);
                        }
                    }
                }
            },
            None => {},
        }
    }

    /// Tells whether the elevator `id` is known and holds the order of
    /// `button` as `Pending`.
    pub fn is_pending(&self, id: usize, button: CallButton) -> (pending: bool)
        requires
            self.wf(),
            id < self@.slots.len(),
            button.valid(self@.n_floors()),
        ensures
            pending == self@.is_pending(id as int, button),
    {
        assert(slot_views(self.connected_elevators@)[id as int] == self@.slots[id as int]);
        match &self.connected_elevators[id] {
            Some(elev_info) => elev_info.responsible_orders.is_pending(button),
            None => false,
        }
    }

    /// Tells whether the elevator `id` is known and holds the order of
    /// `button` as `Active`.
    pub fn is_active(&self, id: usize, button: CallButton) -> (active: bool)
        requires
            self.wf(),
            id < self@.slots.len(),
            button.valid(self@.n_floors()),
        ensures
            active == self@.is_active(id as int, button),
    {
        assert(slot_views(self.connected_elevators@)[id as int] == self@.slots[id as int]);
        match &self.connected_elevators[id] {
            Some(elev_info) => elev_info.responsible_orders.is_active(button),
            None => false,
        }
    }

    /// The call button lights that the building should show: a hall light is
    /// on where some known elevator holds the hall order as `Active`, a cab
    /// light where the local elevator holds the cab order.
    pub fn get_orders_for_lights(&self) -> (order_lights: OrderList)
        requires
            self.wf(),
        ensures
            order_lights.wf(),
            order_lights@ == self@.lights(),
    {
        let n_floors: usize = self.num_floors();
        let len: usize = self.connected_elevators.len();
        let mut order_lights: OrderList = OrderList::new(n_floors as u8);
        let mut i: usize = 0;
        while i < len
            invariant
                i <= len,
                len == self@.slots.len(),
                self.wf(),
                n_floors == self@.n_floors(),
                n_floors <= MAX_FLOORS,
                order_lights.wf(),
                order_lights@.n_floors() == n_floors,
                forall|f: int|
                    0 <= f < n_floors ==> #[trigger] order_lights@.up[f] == (if self@.any_active_below(
                        CallButton { floor: f as u8, call: HALL_UP },
                        i as int,
                    ) {
                        OrderType::Active
                    } else {
                        OrderType::NoOrder
                    }),
                forall|f: int|
                    0 <= f < n_floors ==> #[trigger] order_lights@.down[f]
                        == (if self@.any_active_below(
                        CallButton { floor: f as u8, call: HALL_DOWN },
                        i as int,
                    ) {
                        OrderType::Active
                    } else {
                        OrderType::NoOrder
                    }),
            decreases len - i,
        {
            let ghost lights_before = order_lights@;
            proof {
                assert(slot_views(self.connected_elevators@)[i as int] == self@.slots[i as int]);
            }
            match &self.connected_elevators[i] {
                Some(elev) => {
                    order_lights = merge_remote_active(order_lights, elev.responsible_orders.clone());
                },
                None => {},
            }
            proof {
                let fleet = self@;
                assert forall|f: int| 0 <= f < n_floors implies #[trigger] order_lights@.up[f] == (
                if fleet.any_active_below(CallButton { floor: f as u8, call: HALL_UP }, i + 1) {
                    OrderType::Active
                } else {
                    OrderType::NoOrder
                }) by {
                    let b = CallButton { floor: f as u8, call: HALL_UP };
                    assert(lights_before.up[f] == OrderType::Active ==> fleet.any_active_below(
                        b,
                        i as int,
                    ));
                    if fleet.is_active(i as int, b) {
                        assert(fleet.any_active_below(b, i + 1));
                    }
                    if fleet.any_active_below(b, i + 1) && !fleet.any_active_below(b, i as int) {
                        assert(fleet.is_active(i as int, b));
                    }
                }
                assert forall|f: int| 0 <= f < n_floors implies #[trigger] order_lights@.down[f]
                    == (if fleet.any_active_below(
                    CallButton { floor: f as u8, call: HALL_DOWN },
                    i + 1,
                ) {
                    OrderType::Active
                } else {
                    OrderType::NoOrder
                }) by {
                    let b = CallButton { floor: f as u8, call: HALL_DOWN };
                    assert(lights_before.down[f] == OrderType::Active ==> fleet.any_active_below(
                        b,
                        i as int,
                    ));
                    if fleet.is_active(i as int, b) {
                        assert(fleet.any_active_below(b, i + 1));
                    }
                    if fleet.any_active_below(b, i + 1) && !fleet.any_active_below(b, i as int) {
                        assert(fleet.is_active(i as int, b));
                    }
                }
            }
            i += 1;
        }
        proof {
            assert(slot_views(self.connected_elevators@)[self.local_id as int]
                == self@.slots[self.local_id as int]);
        }
        match &self.connected_elevators[self.local_id] {
            Some(local) => {
                order_lights.inside_queue = local.responsible_orders.inside_queue.clone();
                assert(order_lights.inside_queue@ =~= local.responsible_orders.inside_queue@);
            },
            None => {},
        }
        assert(order_lights@.up =~= self@.lights().up);
        assert(order_lights@.down =~= self@.lights().down);
        order_lights
    }

    /// A copy of the slots, one per identity of the cluster.
    pub fn get_connected_elevators(&self) -> (slots: Vec<Option<ElevatorInfo>>)
        ensures
            slot_views(slots@) == self@.slots,
    {
        clone_slots(&self.connected_elevators)
    }

    /// The snapshot of the elevator `id`, if it is known.
    pub fn elevator(&self, id: usize) -> (slot: &Option<ElevatorInfo>)
        requires
            id < self@.slots.len(),
        ensures
            slot_view(*slot) == self@.slots[id as int],
    {
        assert(slot_views(self.connected_elevators@)[id as int] == self@.slots[id as int]);
        &self.connected_elevators[id]
    }

    /// A copy of the snapshot of the local elevator.
    pub fn get_local_elevator_info(&self) -> (local: Option<ElevatorInfo>)
        requires
            self.wf(),
        ensures
            local matches Some(e) && Some(e@) == self@.slots[self@.local_id as int],
    {
        assert(slot_views(self.connected_elevators@)[self.local_id as int]
            == self@.slots[self.local_id as int]);
        clone_slot(&self.connected_elevators[self.local_id])
    }
}

/// Mathematical model of a [`FleetUpdate`].
pub enum FleetUpdateView {
    Local { info: ElevatorInfoView },
    Remote { peers: Seq<ElevatorInfoView> },
    SetPending { should_set: bool, id: usize, button: CallButton },
}

/// One input of the fleet view.
#[derive(Debug)]
pub enum FleetUpdate {
    /// The local elevator has published `info`.
    Local { info: ElevatorInfo },
    /// Gossip: `peers` holds the latest snapshot of every peer that is alive.
    Remote { peers: Vec<ElevatorInfo> },
    /// The order `(id, button)` is to be marked `Pending` or unmarked.
    SetPending { should_set: bool, id: usize, button: CallButton },
}

/// What applying one input to the fleet view asks to send.
#[derive(Debug)]
pub struct FleetReport {
    /// Hall orders for the local elevator: those held of peers that are lost
    /// or have given up.
    pub lost_orders: Vec<CallButton>,
    /// Copy of the fleet view after the input, for the router and the light
    /// setter.
    pub snapshot: ConnectedElevatorInfo,
}

impl View for FleetUpdate {
    type V = FleetUpdateView;

    open spec fn view(&self) -> FleetUpdateView {
        match *self {
            FleetUpdate::Local { info } => FleetUpdateView::Local { info: info@ },
            FleetUpdate::Remote { peers } => FleetUpdateView::Remote { peers: info_views(peers@) },
            FleetUpdate::SetPending { should_set, id, button } => FleetUpdateView::SetPending {
                should_set,
                id,
                button,
            },
        }
    }
}

impl FleetView {
    /// The fleet view can take `update` in.
    pub open spec fn admits(self, update: FleetUpdateView) -> bool {
        match update {
            FleetUpdateView::Local { info } => self.fits(info),
            FleetUpdateView::Remote { peers } => self.accepts(peers),
            FleetUpdateView::SetPending { should_set, id, button } => id < self.slots.len()
                && button.valid(self.n_floors()),
        }
    }

    /// The fleet view after `update`.
    pub open spec fn after_update(self, update: FleetUpdateView) -> FleetView {
        match update {
            FleetUpdateView::Local { info } => self.after_local_update(info),
            FleetUpdateView::Remote { peers } => self.after_remote_update(peers),
            FleetUpdateView::SetPending { should_set, id, button } => self.after_set_pending(
                should_set,
                id as int,
                button,
            ),
        }
    }

    /// The hall orders that the node has to take care of after `update`:
    /// those of peers that gossip shows as lost or as having given up.
    pub open spec fn takeovers_after(self, update: FleetUpdateView) -> Seq<CallButton> {
        match update {
            FleetUpdateView::Remote { peers } => self.takeovers(peers),
            _ => seq![],
        }
    }
}

impl ConnectedElevatorInfo {
    /// Tells whether the fleet view can take `update` in.
    pub fn admits(&self, update: &FleetUpdate) -> (ok: bool)
        requires
            self.wf(),
        ensures
            ok == self@.admits(update@),
    {
        match update {
            FleetUpdate::Local { info } => self.fits(info),
            FleetUpdate::Remote { peers } => self.accepts(peers),
            FleetUpdate::SetPending { should_set, id, button } => *id
                < self.connected_elevators.len() && button.is_valid(self.num_floors()),
        }
    }

    /// Applies one input to the fleet view. The report holds the hall
    /// orders that the node has to take care of because of it, and a copy of
    /// the view as it is now, to be published.
    pub fn on_update(&mut self, update: FleetUpdate) -> (report: FleetReport)
        requires
            old(self).wf(),
            old(self)@.admits(update@),
        ensures
            final(self).wf(),
            final(self)@ == old(self)@.after_update(update@),
            report.lost_orders@ == old(self)@.takeovers_after(update@),
            report.snapshot@ == final(self)@,
    {
        let lost_orders: Vec<CallButton> = match update {
            FleetUpdate::Local { info } => {
                self.update_local_elevator_info(info);
                Vec::new()
            },
            FleetUpdate::Remote { peers } => self.update_remote_elevator_info(peers),
            FleetUpdate::SetPending { should_set, id, button } => {
                self.set_to_pending(should_set, id, button);
                Vec::new()
            },
        };
        FleetReport { lost_orders, snapshot: self.clone() }
    }
}

/// What was heard last of an elevator in gossip that the fleet view accepts
/// is a snapshot of that elevator that fits the view.
pub proof fn lemma_latest_fits(fleet: FleetView, update: Seq<ElevatorInfoView>, id: int)
    requires
        fleet.accepts(update),
    ensures
        latest_of(update, id) matches Some(e) ==> fleet.fits(e) && e.id == id,
    decreases update.len(),
{
    if update.len() > 0 && update.last().id != id {
        assert forall|k: int| 0 <= k < update.drop_last().len() implies fleet.fits(
            #[trigger] update.drop_last()[k],
        ) && update.drop_last()[k].id < fleet.slots.len() by {
            assert(update.drop_last()[k] == update[k]);
        }
        lemma_latest_fits(fleet, update.drop_last(), id);
    }
}

/// Taking in gossip keeps the fleet view well formed.
pub proof fn lemma_remote_update_keeps_wf(fleet: FleetView, update: Seq<ElevatorInfoView>)
    requires
        fleet.wf(),
        fleet.accepts(update),
    ensures
        fleet.after_remote_update(update).wf(),
        fleet.after_remote_update(update).n_floors() == fleet.n_floors(),
{
    let after = fleet.after_remote_update(update);
    assert forall|i: int| 0 <= i < after.slots.len() implies (#[trigger] after.slots[i] matches Some(
        e,
    ) ==> e.orders.wf() && e.orders.n_floors() == after.n_floors()) by {
        lemma_latest_fits(fleet, update, i);
        assert(fleet.slots[i] matches Some(e) ==> e.orders.wf());
    }
}

/// Taking in the same gossip twice gives the same fleet view as taking it in
/// once.
pub proof fn lemma_remote_update_idempotent(fleet: FleetView, update: Seq<ElevatorInfoView>)
    requires
        fleet.wf(),
        fleet.accepts(update),
    ensures
        fleet.after_remote_update(update).after_remote_update(update) == fleet.after_remote_update(
            update,
        ),
{
    let once = fleet.after_remote_update(update);
    let twice = once.after_remote_update(update);
    assert forall|i: int| 0 <= i < fleet.slots.len() implies twice.slots[i] == once.slots[i] by {
        if i != fleet.local_id {
            lemma_latest_fits(fleet, update, i);
            match (fleet.slots[i], latest_of(update, i)) {
                (Some(l), Some(r)) => {
                    lemma_merge_twice(l.orders, r.orders);
                },
                (None, Some(r)) => {
                    lemma_merge_twice(r.orders, r.orders);
                },
                _ => {},
            }
        }
    }
    assert(twice.slots =~= once.slots);
}

/// After gossip was taken in, a peer's order is `Active` in the fleet view
/// exactly if the peer is alive and its own snapshot says so: what the view
/// held of the peer before cannot demote an order that the peer shows as
/// `Active`, and only the peer itself, by no longer showing it, takes it
/// back.
pub proof fn lemma_remote_update_follows_remote_active(
    fleet: FleetView,
    update: Seq<ElevatorInfoView>,
    id: int,
    button: CallButton,
)
    requires
        fleet.wf(),
        fleet.accepts(update),
        0 <= id < fleet.slots.len(),
        id != fleet.local_id,
        button.valid(fleet.n_floors()),
    ensures
        fleet.after_remote_update(update).is_active(id, button) == (latest_of(update, id) matches Some(
            r,
        ) && r.orders.status(button) == OrderType::Active),
{
    lemma_latest_fits(fleet, update, id);
    match (fleet.slots[id], latest_of(update, id)) {
        (Some(l), Some(r)) => {
            lemma_merge_follows_remote_active(l.orders, r.orders, button);
        },
        _ => {},
    }
}

/// A pending mark, set or taken back, leaves every `Active` order of the
/// fleet view as it is.
pub proof fn lemma_set_pending_keeps_active(
    fleet: FleetView,
    should_set: bool,
    id: int,
    marked: CallButton,
    other: int,
    button: CallButton,
)
    requires
        fleet.wf(),
        0 <= id < fleet.slots.len(),
        0 <= other < fleet.slots.len(),
        marked.valid(fleet.n_floors()),
        button.valid(fleet.n_floors()),
    ensures
        fleet.after_set_pending(should_set, id, marked).is_active(other, button) == fleet.is_active(
            other,
            button,
        ),
{
    if other == id {
        match fleet.slots[id] {
            Some(e) => {
                lemma_pending_mark_keeps_active(e.orders, should_set, marked, button);
            },
            None => {},
        }
    }
}

/// Gossip keeps hall orders with a single owner, if the cluster it
/// describes has them so: where no hall order is `Active` in two of the
/// snapshots heard, the local one counted in, none is `Active` in two slots
/// of the fleet view afterwards.
pub proof fn lemma_remote_update_keeps_single_owner(fleet: FleetView, update: Seq<ElevatorInfoView>)
    requires
        fleet.wf(),
        fleet.accepts(update),
        fleet.as_heard(update).single_owner(),
    ensures
        fleet.after_remote_update(update).single_owner(),
{
    let after = fleet.after_remote_update(update);
    let heard = fleet.as_heard(update);
    lemma_remote_update_keeps_wf(fleet, update);
    assert(heard.n_floors() == fleet.n_floors());
    assert forall|button: CallButton, i: int, j: int|
        #![trigger after.is_active(i, button), after.is_active(j, button)]
        button.is_hall() && button.valid(after.n_floors()) && 0 <= i < after.slots.len() && 0 <= j
            < after.slots.len() && after.is_active(i, button) && after.is_active(
            j,
            button,
        ) implies i == j by {
        if i != fleet.local_id {
            lemma_remote_update_follows_remote_active(fleet, update, i, button);
        }
        if j != fleet.local_id {
            lemma_remote_update_follows_remote_active(fleet, update, j, button);
        }
        assert(heard.is_active(i, button));
        assert(heard.is_active(j, button));
    }
}

/// A snapshot of the local elevator keeps hall orders with a single owner,
/// if the local elevator claims none that a peer holds as `Active`.
pub proof fn lemma_local_update_keeps_single_owner(fleet: FleetView, info: ElevatorInfoView)
    requires
        fleet.wf(),
        fleet.fits(info),
        fleet.single_owner(),
        forall|button: CallButton, j: int|
            button.is_hall() && button.valid(fleet.n_floors()) && info.orders.status(button)
                == OrderType::Active && 0 <= j < fleet.slots.len() && j != fleet.local_id
                ==> !#[trigger] fleet.is_active(j, button),
    ensures
        fleet.after_local_update(info).single_owner(),
{
    let after = fleet.after_local_update(info);
    assert(after.n_floors() == fleet.n_floors());
    assert forall|button: CallButton, i: int, j: int|
        #![trigger after.is_active(i, button), after.is_active(j, button)]
        button.is_hall() && button.valid(after.n_floors()) && 0 <= i < after.slots.len() && 0 <= j
            < after.slots.len() && after.is_active(i, button) && after.is_active(
            j,
            button,
        ) implies i == j by {
        if i != fleet.local_id && j != fleet.local_id {
            assert(fleet.is_active(i, button) && fleet.is_active(j, button));
        } else if i != fleet.local_id {
            assert(fleet.is_active(i, button));
        } else if j != fleet.local_id {
            assert(fleet.is_active(j, button));
        }
    }
}

/// A fleet view that knows one elevator only has no hall order with two
/// owners.
pub proof fn lemma_lonely_fleet_has_single_owner(fleet: FleetView)
    requires
        forall|i: int| 0 <= i < fleet.slots.len() && i != fleet.local_id ==> fleet.slots[i] is None,
    ensures
        fleet.single_owner(),
{
}

/// A pending mark keeps hall orders with a single owner.
pub proof fn lemma_set_pending_keeps_single_owner(
    fleet: FleetView,
    should_set: bool,
    id: int,
    marked: CallButton,
)
    requires
        fleet.wf(),
        0 <= id < fleet.slots.len(),
        marked.valid(fleet.n_floors()),
        fleet.single_owner(),
    ensures
        fleet.after_set_pending(should_set, id, marked).single_owner(),
{
    let after = fleet.after_set_pending(should_set, id, marked);
    assert(after.n_floors() == fleet.n_floors());
    assert forall|button: CallButton, i: int, j: int|
        #![trigger after.is_active(i, button), after.is_active(j, button)]
        button.is_hall() && button.valid(after.n_floors()) && 0 <= i < after.slots.len() && 0 <= j
            < after.slots.len() && after.is_active(i, button) && after.is_active(
            j,
            button,
        ) implies i == j by {
        lemma_set_pending_keeps_active(fleet, should_set, id, marked, i, button);
        lemma_set_pending_keeps_active(fleet, should_set, id, marked, j, button);
        assert(fleet.is_active(i, button) && fleet.is_active(j, button));
    }
}

} // verus!
