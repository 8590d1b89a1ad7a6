//! Order bookkeeping shared by the local state machine and the fleet view.
use crate::local_elevator::elevio::poll::{CallButton, HALL_DOWN, HALL_UP};
use vstd::prelude::*;

verus! {

/// What a node knows of one button of one elevator.
///
/// `Active`: the elevator has accepted the order and must serve it.
/// `Pending`: the elevator has been asked to serve it and has not confirmed yet.
/// `NoOrder`: nothing is asked of the elevator at this button.
#[derive(PartialEq, Eq, Copy, Clone, Debug, Hash, Structural)]
pub enum OrderType {
    Active,
    Pending,
    NoOrder,
}

/// The largest floor count an order list can have: floors are numbered by a
/// `u8`, and `u8::MAX` is kept for "floor unknown".
pub const MAX_FLOORS: usize = 255;

/// Mathematical model of an [`OrderList`]: one sequence per call kind,
/// indexed by floor.
pub struct OrderListView {
    pub up: Seq<OrderType>,
    pub down: Seq<OrderType>,
    pub inside: Seq<OrderType>,
}

/// What an observer holds for a slot after hearing the owner's own value of
/// it: the owner's word wins, except that a local `Pending` mark stays until
/// the owner shows `Active`.
pub open spec fn merge_order(current: OrderType, remote: OrderType) -> OrderType {
    if current == OrderType::Pending && remote != OrderType::Active {
        OrderType::Pending
    } else {
        remote
    }
}

/// A hall slot after its owner took over the hall orders of `other`: it is
/// `Active` if it was, or if `other` held the order as `Active` or `Pending`.
pub open spec fn service_order(own: OrderType, other: OrderType) -> OrderType {
    if own == OrderType::Active || other == OrderType::Active || other == OrderType::Pending {
        OrderType::Active
    } else {
        own
    }
}

/// A hall slot after all assigned hall orders were given the status `to`.
pub open spec fn reassign_order(current: OrderType, to: OrderType) -> OrderType {
    if current == OrderType::Active || current == OrderType::Pending {
        to
    } else {
        current
    }
}

impl OrderListView {
    /// The three queues cover the same floors, and a `u8` can number them.
    pub open spec fn wf(self) -> bool {
        &&& self.up.len() == self.down.len()
        &&& self.up.len() == self.inside.len()
        &&& self.up.len() <= MAX_FLOORS
    }

    /// Number of floors the list covers.
    pub open spec fn n_floors(self) -> nat {
        self.up.len()
    }

    /// The list of `n` floors without any order.
    pub open spec fn empty(n: nat) -> OrderListView {
        OrderListView {
            up: Seq::new(n, |i: int| OrderType::NoOrder),
            down: Seq::new(n, |i: int| OrderType::NoOrder),
            inside: Seq::new(n, |i: int| OrderType::NoOrder),
        }
    }

    /// Status of the slot that `button` names.
    pub open spec fn status(self, button: CallButton) -> OrderType {
        if button.call == HALL_UP {
            self.up[button.floor as int]
        } else if button.call == HALL_DOWN {
            self.down[button.floor as int]
        } else {
            self.inside[button.floor as int]
        }
    }

    /// The list with the slot of `button` set to `order_type`.
    pub open spec fn with_status(self, button: CallButton, order_type: OrderType) -> OrderListView {
        if button.call == HALL_UP {
            OrderListView { up: self.up.update(button.floor as int, order_type), ..self }
        } else if button.call == HALL_DOWN {
            OrderListView { down: self.down.update(button.floor as int, order_type), ..self }
        } else {
            OrderListView { inside: self.inside.update(button.floor as int, order_type), ..self }
        }
    }

    /// The list with all three slots of `floor` emptied.
    pub open spec fn cleared_floor(self, floor: int) -> OrderListView {
        OrderListView {
            up: self.up.update(floor, OrderType::NoOrder),
            down: self.down.update(floor, OrderType::NoOrder),
            inside: self.inside.update(floor, OrderType::NoOrder),
        }
    }

    /// The list after `set_pending`: an `Active` slot is left alone, any
    /// other becomes `Pending` or empty as `should_set` says.
    pub open spec fn with_pending(self, should_set: bool, button: CallButton) -> OrderListView {
        if self.status(button) == OrderType::Active {
            self
        } else if should_set {
            self.with_status(button, OrderType::Pending)
        } else {
            self.with_status(button, OrderType::NoOrder)
        }
    }

    /// The list with every assigned hall order (`Active` or `Pending`) given
    /// the status `to`; cab orders are untouched.
    pub open spec fn with_hall_orders_as(self, to: OrderType) -> OrderListView {
        OrderListView {
            up: Seq::new(self.up.len(), |i: int| reassign_order(self.up[i], to)),
            down: Seq::new(self.down.len(), |i: int| reassign_order(self.down[i], to)),
            inside: self.inside,
        }
    }

    /// The observer's list of an elevator after hearing that elevator's own
    /// list `remote`: slot by slot [`merge_order`].
    pub open spec fn merged(self, remote: OrderListView) -> OrderListView {
        OrderListView {
            up: Seq::new(self.up.len(), |i: int| merge_order(self.up[i], remote.up[i])),
            down: Seq::new(self.down.len(), |i: int| merge_order(self.down[i], remote.down[i])),
            inside: Seq::new(
                self.inside.len(),
                |i: int| merge_order(self.inside[i], remote.inside[i]),
            ),
        }
    }

    /// The list after taking over the hall orders of `other`: hall slot by
    /// hall slot [`service_order`]; cab orders are untouched.
    pub open spec fn serviced(self, other: OrderListView) -> OrderListView {
        OrderListView {
            up: Seq::new(self.up.len(), |i: int| service_order(self.up[i], other.up[i])),
            down: Seq::new(self.down.len(), |i: int| service_order(self.down[i], other.down[i])),
            inside: self.inside,
        }
    }

    /// Some slot of `floor` is `Active`.
    pub open spec fn active_at(self, floor: int) -> bool {
        ||| self.up[floor] == OrderType::Active
        ||| self.down[floor] == OrderType::Active
        ||| self.inside[floor] == OrderType::Active
    }

    /// No slot of the list is `Active`.
    pub open spec fn no_active(self) -> bool {
        forall|f: int| 0 <= f < self.n_floors() ==> !#[trigger] self.active_at(f)
    }
}

/// Orders of one elevator: per call kind, one slot for each floor.
#[derive(Eq, Debug, Hash)]
pub struct OrderList {
    pub up_queue: Vec<OrderType>,
    pub down_queue: Vec<OrderType>,
    pub inside_queue: Vec<OrderType>,
}

impl View for OrderList {
    type V = OrderListView;

    open spec fn view(&self) -> OrderListView {
        OrderListView { up: self.up_queue@, down: self.down_queue@, inside: self.inside_queue@ }
    }
}

impl Clone for OrderList {
    fn clone(&self) -> (res: Self)
        ensures
            res@ == self@,
    {
        let res = OrderList {
            up_queue: self.up_queue.clone(),
            down_queue: self.down_queue.clone(),
            inside_queue: self.inside_queue.clone(),
        };
        assert(res.up_queue@ =~= self.up_queue@);
        assert(res.down_queue@ =~= self.down_queue@);
        assert(res.inside_queue@ =~= self.inside_queue@);
        res
    }
}

/// Tells whether two queues hold the same statuses, floor by floor.
pub fn queues_equal(first: &Vec<OrderType>, second: &Vec<OrderType>) -> (equal: bool)
    ensures
        equal == (first@ == second@),
{
    if first.len() != second.len() {
        return false;
    }
    let mut i: usize = 0;
    while i < first.len()
        invariant
            i <= first.len(),
            first.len() == second.len(),
            forall|j: int| 0 <= j < i ==> first@[j] == second@[j],
        decreases first.len() - i,
    {
        if first[i] != second[i] {
            return false;
        }
        i += 1;
    }
    assert(first@ =~= second@);
    true
}

impl PartialEq for OrderList {
    /// Two lists are equal when they hold the same statuses in every slot.
    fn eq(&self, other: &Self) -> (equal: bool) {
        queues_equal(&self.up_queue, &other.up_queue) && queues_equal(
            &self.down_queue,
            &other.down_queue,
        ) && queues_equal(&self.inside_queue, &other.inside_queue)
    }
}

impl vstd::std_specs::cmp::PartialEqSpecImpl for OrderList {
    open spec fn obeys_eq_spec() -> bool {
        true
    }

    open spec fn eq_spec(&self, other: &Self) -> bool {
        self@ == other@
    }
}

/// What an observer holds for a slot after hearing the owner's own value of
/// it. A `Pending` mark can only be upgraded to `Active` by the owner.
pub fn merge_remote_order(current_order: OrderType, remote_order: OrderType) -> (merged: OrderType)
    ensures
        merged == merge_order(current_order, remote_order),
{
    match current_order {
        OrderType::Pending => {
            if remote_order == OrderType::Active {
                OrderType::Active
            } else {
                OrderType::Pending
            }
        },
        _ => remote_order,
    }
}

impl OrderList {
    /// The three queues cover the same floors, and a `u8` can number them.
    pub open spec fn wf(&self) -> bool {
        self@.wf()
    }

    /// A list of `num_floors` floors without any order.
    pub fn new(num_floors: u8) -> (list: OrderList)
        ensures
            list.wf(),
            list@ == OrderListView::empty(num_floors as nat),
    {
        let n: usize = num_floors as usize;
        let list = OrderList {
            up_queue: vec![OrderType::NoOrder; n],
            down_queue: vec![OrderType::NoOrder; n],
            inside_queue: vec![OrderType::NoOrder; n],
        };
        assert(list@.up =~= OrderListView::empty(num_floors as nat).up);
        assert(list@.down =~= OrderListView::empty(num_floors as nat).down);
        assert(list@.inside =~= OrderListView::empty(num_floors as nat).inside);
        list
    }

    /// Number of floors the list covers.
    pub fn num_floors(&self) -> (n: usize)
        ensures
            n == self@.n_floors(),
    {
        self.up_queue.len()
    }

    /// Tells whether the three queues cover the same floors, at most
    /// [`MAX_FLOORS`] of them.
    pub fn is_wf(&self) -> (ok: bool)
        ensures
            ok == self.wf(),
    {
        let n: usize = self.up_queue.len();
        n == self.down_queue.len() && n == self.inside_queue.len() && n <= MAX_FLOORS
    }

    /// Empties the three slots of `floor`.
    pub fn clear_orders_on_floor(&mut self, floor: u8)
        requires
            old(self).wf(),
            floor < old(self)@.n_floors(),
        ensures
            final(self).wf(),
            final(self)@ == old(self)@.cleared_floor(floor as int),
    {
        let f: usize = floor as usize;
        self.up_queue[f] = OrderType::NoOrder;
        self.inside_queue[f] = OrderType::NoOrder;
        self.down_queue[f] = OrderType::NoOrder;
    }

    /// Empties every slot of the list.
    pub fn clear_all_orders(&mut self)
        requires
            old(self).wf(),
        ensures
            final(self).wf(),
            final(self)@ == OrderListView::empty(old(self)@.n_floors()),
    {
        let n: usize = self.up_queue.len();
        let mut i: usize = 0;
        while i < n
            invariant
                i <= n,
                self.wf(),
                self@.n_floors() == n,
                forall|j: int| 0 <= j < i ==> self@.up[j] == OrderType::NoOrder,
                forall|j: int| 0 <= j < i ==> self@.down[j] == OrderType::NoOrder,
                forall|j: int| 0 <= j < i ==> self@.inside[j] == OrderType::NoOrder,
            decreases n - i,
        {
            self.up_queue[i] = OrderType::NoOrder;
            self.down_queue[i] = OrderType::NoOrder;
            self.inside_queue[i] = OrderType::NoOrder;
            i += 1;
        }
        assert(self@.up =~= OrderListView::empty(n as nat).up);
        assert(self@.down =~= OrderListView::empty(n as nat).down);
        assert(self@.inside =~= OrderListView::empty(n as nat).inside);
    }

    /// Empties the slot of `button`.
    pub fn remove_order(&mut self, button: CallButton)
        requires
            old(self).wf(),
            button.valid(old(self)@.n_floors()),
        ensures
            final(self).wf(),
            final(self)@ == old(self)@.with_status(button, OrderType::NoOrder),
    {
        self.modify_order(button, OrderType::NoOrder);
    }

    /// Marks the order of `button` as accepted.
    pub fn set_active(&mut self, button: CallButton)
        requires
            old(self).wf(),
            button.valid(old(self)@.n_floors()),
        ensures
            final(self).wf(),
            final(self)@ == old(self)@.with_status(button, OrderType::Active),
    {
        self.modify_order(button, OrderType::Active);
    }

    /// Adds the order of `button`: the slot becomes `Active`.
    pub fn add_order(&mut self, button: CallButton)
        requires
            old(self).wf(),
            button.valid(old(self)@.n_floors()),
        ensures
            final(self).wf(),
            final(self)@ == old(self)@.with_status(button, OrderType::Active),
    {
        self.set_active(button);
    }

    /// Marks the slot of `button` as `Pending` (`should_set`) or takes the
    /// mark back (`!should_set`). An `Active` slot stays `Active`.
    pub fn set_pending(&mut self, should_set: bool, button: CallButton)
        requires
            old(self).wf(),
            button.valid(old(self)@.n_floors()),
        ensures
            final(self).wf(),
            final(self)@ == old(self)@.with_pending(should_set, button),
    {
        if self.get_order_status(button) != OrderType::Active {
            if should_set {
                self.modify_order(button, OrderType::Pending);
            } else {
                self.modify_order(button, OrderType::NoOrder);
            }
        }
    }

    /// Gives every assigned hall order, `Active` or `Pending`, the status
    /// `active_or_pending`. Cab orders and empty slots are untouched.
    pub fn change_all_assigned_hall_order_status(&mut self, active_or_pending: OrderType)
        requires
            old(self).wf(),
        ensures
            final(self).wf(),
            final(self)@ == old(self)@.with_hall_orders_as(active_or_pending),
    {
        let n: usize = self.up_queue.len();
        let mut f: usize = 0;
        while f < n
            invariant
                f <= n,
                self.wf(),
                self@.n_floors() == n,
                old(self)@.n_floors() == n,
                old(self).wf(),
                self@.inside == old(self)@.inside,
                forall|j: int|
                    0 <= j < f ==> self@.up[j] == reassign_order(
                        old(self)@.up[j],
                        active_or_pending,
                    ),
                forall|j: int|
                    0 <= j < f ==> self@.down[j] == reassign_order(
                        old(self)@.down[j],
                        active_or_pending,
                    ),
                forall|j: int| f <= j < n ==> self@.up[j] == old(self)@.up[j],
                forall|j: int| f <= j < n ==> self@.down[j] == old(self)@.down[j],
            decreases n - f,
        {
            let up: OrderType = self.up_queue[f];
            if up == OrderType::Active || up == OrderType::Pending {
                self.up_queue[f] = active_or_pending;
            }
            let down: OrderType = self.down_queue[f];
            if down == OrderType::Active || down == OrderType::Pending {
                self.down_queue[f] = active_or_pending;
            }
            f += 1;
        }
        assert(self@.up =~= old(self)@.with_hall_orders_as(active_or_pending).up);
        assert(self@.down =~= old(self)@.with_hall_orders_as(active_or_pending).down);
    }

    /// Tells whether the order of `button` waits for its owner's confirmation.
    pub fn is_pending(&self, button: CallButton) -> (pending: bool)
        requires
            self.wf(),
            button.valid(self@.n_floors()),
        ensures
            pending == (self@.status(button) == OrderType::Pending),
    {
        self.get_order_status(button) == OrderType::Pending
    }

    /// Tells whether the order of `button` has been accepted.
    pub fn is_active(&self, button: CallButton) -> (active: bool)
        requires
            self.wf(),
            button.valid(self@.n_floors()),
        ensures
            active == (self@.status(button) == OrderType::Active),
    {
        self.get_order_status(button) == OrderType::Active
    }

    /// Brings the list, an observer's knowledge of some elevator, up to date
    /// with `remote_orders`, that elevator's own list: every slot takes the
    /// remote value, except that a `Pending` mark stays until the remote
    /// shows `Active`.
    pub fn merge_remote_orders(&mut self, remote_orders: OrderList)
        requires
            old(self).wf(),
            remote_orders.wf(),
            remote_orders@.n_floors() == old(self)@.n_floors(),
        ensures
            final(self).wf(),
            final(self)@ == old(self)@.merged(remote_orders@),
    {
        let n: usize = self.up_queue.len();
        let mut i: usize = 0;
        while i < n
            invariant
                i <= n,
                self.wf(),
                old(self).wf(),
                remote_orders.wf(),
                self@.n_floors() == n,
                old(self)@.n_floors() == n,
                remote_orders@.n_floors() == n,
                forall|j: int|
                    0 <= j < i ==> self@.up[j] == merge_order(old(self)@.up[j], remote_orders@.up[j]),
                forall|j: int|
                    0 <= j < i ==> self@.down[j] == merge_order(
                        old(self)@.down[j],
                        remote_orders@.down[j],
                    ),
                forall|j: int|
                    0 <= j < i ==> self@.inside[j] == merge_order(
                        old(self)@.inside[j],
                        remote_orders@.inside[j],
                    ),
                forall|j: int| i <= j < n ==> self@.up[j] == old(self)@.up[j],
                forall|j: int| i <= j < n ==> self@.down[j] == old(self)@.down[j],
                forall|j: int| i <= j < n ==> self@.inside[j] == old(self)@.inside[j],
            decreases n - i,
        {
            self.up_queue[i] = merge_remote_order(self.up_queue[i], remote_orders.up_queue[i]);
            self.down_queue[i] = merge_remote_order(self.down_queue[i], remote_orders.down_queue[i]);
            self.inside_queue[i] = merge_remote_order(
                self.inside_queue[i],
                remote_orders.inside_queue[i],
            );
            i += 1;
        }
        assert(self@.up =~= old(self)@.merged(remote_orders@).up);
        assert(self@.down =~= old(self)@.merged(remote_orders@).down);
        assert(self@.inside =~= old(self)@.merged(remote_orders@).inside);
    }

    /// Takes over the hall orders of `orders`: what is `Active` or `Pending`
    /// there becomes `Active` here. Cab orders are not taken over.
    pub fn service_hall_orders(&mut self, orders: OrderList)
        requires
            old(self).wf(),
            orders.wf(),
            orders@.n_floors() == old(self)@.n_floors(),
        ensures
            final(self).wf(),
            final(self)@ == old(self)@.serviced(orders@),
    {
        let n: usize = self.up_queue.len();
        let mut i: usize = 0;
        while i < n
            invariant
                i <= n,
                self.wf(),
                old(self).wf(),
                orders.wf(),
                self@.n_floors() == n,
                old(self)@.n_floors() == n,
                orders@.n_floors() == n,
                self@.inside == old(self)@.inside,
                forall|j: int|
                    0 <= j < i ==> self@.up[j] == service_order(old(self)@.up[j], orders@.up[j]),
                forall|j: int|
                    0 <= j < i ==> self@.down[j] == service_order(
                        old(self)@.down[j],
                        orders@.down[j],
                    ),
                forall|j: int| i <= j < n ==> self@.up[j] == old(self)@.up[j],
                forall|j: int| i <= j < n ==> self@.down[j] == old(self)@.down[j],
            decreases n - i,
        {
            let other_up: OrderType = orders.up_queue[i];
            if self.up_queue[i] == OrderType::Active || other_up == OrderType::Active || other_up
                == OrderType::Pending {
                self.up_queue[i] = OrderType::Active;
            }
            let other_down: OrderType = orders.down_queue[i];
            if self.down_queue[i] == OrderType::Active || other_down == OrderType::Active
                || other_down == OrderType::Pending {
                self.down_queue[i] = OrderType::Active;
            }
            i += 1;
        }
        assert(self@.up =~= old(self)@.serviced(orders@).up);
        assert(self@.down =~= old(self)@.serviced(orders@).down);
    }

    /// Status of the slot that `button` names.
    pub fn get_order_status(&self, button: CallButton) -> (status: OrderType)
        requires
            self.wf(),
            button.valid(self@.n_floors()),
        ensures
            status == self@.status(button),
    {
        let f: usize = button.floor as usize;
        if button.call == HALL_UP {
            self.up_queue[f]
        } else if button.call == HALL_DOWN {
            self.down_queue[f]
        } else {
            self.inside_queue[f]
        }
    }

    /// Sets the slot that `button` names to `order_type`.
    pub fn modify_order(&mut self, button: CallButton, order_type: OrderType)
        requires
            old(self).wf(),
            button.valid(old(self)@.n_floors()),
        ensures
            final(self).wf(),
            final(self)@ == old(self)@.with_status(button, order_type),
    {
        let f: usize = button.floor as usize;
        if button.call == HALL_UP {
            self.up_queue[f] = order_type;
        } else if button.call == HALL_DOWN {
            self.down_queue[f] = order_type;
        } else {
            self.inside_queue[f] = order_type;
        }
    }
}

/// Merging the same remote list twice changes nothing more than merging it
/// once.
pub proof fn lemma_merge_twice(held: OrderListView, remote: OrderListView)
    requires
        held.wf(),
        remote.wf(),
        held.n_floors() == remote.n_floors(),
    ensures
        held.merged(remote).merged(remote) == held.merged(remote),
        remote.merged(remote) == remote,
{
    assert(held.merged(remote).merged(remote).up =~= held.merged(remote).up);
    assert(held.merged(remote).merged(remote).down =~= held.merged(remote).down);
    assert(held.merged(remote).merged(remote).inside =~= held.merged(remote).inside);
    assert(remote.merged(remote).up =~= remote.up);
    assert(remote.merged(remote).down =~= remote.down);
    assert(remote.merged(remote).inside =~= remote.inside);
}

/// A merge follows the owner in what is `Active`: after it, an order is
/// `Active` exactly if the owner's own list says so. Whatever the observer
/// held, a merge alone neither takes an `Active` order of the owner back nor
/// keeps one that the owner has dropped. And it marks nothing `Pending` on
/// its own: a `Pending` mark after the merge was one before, or is the
/// owner's.
pub proof fn lemma_merge_follows_remote_active(
    held: OrderListView,
    remote: OrderListView,
    button: CallButton,
)
    requires
        held.wf(),
        remote.wf(),
        held.n_floors() == remote.n_floors(),
        button.valid(held.n_floors()),
    ensures
        (held.merged(remote).status(button) == OrderType::Active) == (remote.status(button)
            == OrderType::Active),
        remote.status(button) != OrderType::Active && held.status(button) == OrderType::Pending
            ==> held.merged(remote).status(button) == OrderType::Pending,
        held.merged(remote).status(button) == OrderType::Pending ==> held.status(button)
            == OrderType::Pending || remote.status(button) == OrderType::Pending,
{
}

/// Marking an order as `Pending`, or taking the mark back, changes no other
/// slot, and no `Active` order at all.
pub proof fn lemma_pending_mark_keeps_active(
    orders: OrderListView,
    should_set: bool,
    marked: CallButton,
    button: CallButton,
)
    requires
        orders.wf(),
        marked.valid(orders.n_floors()),
        button.valid(orders.n_floors()),
    ensures
        (orders.with_pending(should_set, marked).status(button) == OrderType::Active) == (
        orders.status(button) == OrderType::Active),
        button != marked ==> orders.with_pending(should_set, marked).status(button)
            == orders.status(button),
{
}

} // verus!
