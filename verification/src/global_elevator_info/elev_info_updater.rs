//! Liveness of the peers: who is alive by the snapshots that arrive, who is
//! lost by those that do not, and what to remember of the lost.
use crate::local_elevator::fsm::elevatorfsm::{ElevatorInfo, ElevatorInfoView};
use vstd::prelude::*;

verus! {

/// Number of copies in which a snapshot is broadcast at every tick, against
/// loss.
pub const INFO_BURST_SIZE: usize = 3;

/// Mathematical model of a [`PeerSlot`].
pub enum PeerSlotView {
    Unknown,
    Alive { last_seen: u64, info: ElevatorInfoView },
    Lost { info: ElevatorInfoView },
}

impl PeerSlotView {
    /// The peer is alive and was not heard of for more than `timeout`
    /// milliseconds before `now`.
    pub open spec fn expired(self, now: u64, timeout: u64) -> bool {
        self matches PeerSlotView::Alive { last_seen, .. } && now - last_seen > timeout
    }

    /// The slot at `now`: an alive peer that has expired is lost, and the
    /// snapshot heard last is kept of it.
    pub open spec fn aged(self, now: u64, timeout: u64) -> PeerSlotView {
        match self {
            PeerSlotView::Alive { last_seen, info } => if now - last_seen > timeout {
                PeerSlotView::Lost { info }
            } else {
                self
            },
            _ => self,
        }
    }
}

/// The peers that are alive.
pub open spec fn is_alive() -> spec_fn(PeerSlotView) -> bool {
    |slot: PeerSlotView| slot is Alive
}

/// The snapshot held of a peer that is alive.
pub open spec fn alive_info() -> spec_fn(PeerSlotView) -> ElevatorInfoView {
    |slot: PeerSlotView| slot->Alive_info
}

/// Mathematical model of a [`PeerTracker`].
pub struct PeerTrackerView {
    pub timeout: u64,
    pub slots: Seq<PeerSlotView>,
}

impl PeerTrackerView {
    /// The tracker after the snapshot `received`, if any, arrived at `now`:
    /// its elevator is alive.
    pub open spec fn after_message(self, received: Option<ElevatorInfoView>, now: u64) -> PeerTrackerView {
        match received {
            Some(info) => PeerTrackerView {
                slots: self.slots.update(
                    info.id as int,
                    PeerSlotView::Alive { last_seen: now, info },
                ),
                ..self
            },
            None => self,
        }
    }

    /// The tracker at `now`, with every expired peer lost.
    pub open spec fn after_expiry(self, now: u64) -> PeerTrackerView {
        PeerTrackerView {
            slots: Seq::new(self.slots.len(), |i: int| self.slots[i].aged(now, self.timeout)),
            ..self
        }
    }

    /// The tracker after one round at `now`, in which `received` arrived or
    /// nothing did.
    pub open spec fn after_round(self, received: Option<ElevatorInfoView>, now: u64) -> PeerTrackerView {
        self.after_message(received, now).after_expiry(now)
    }

    /// The snapshot to send back to the cluster when `received` arrives: if
    /// its elevator was lost, what was known of it when it was lost. The
    /// elevator, back after a restart, finds its cab orders in it.
    pub open spec fn backup_for(self, received: Option<ElevatorInfoView>) -> Option<ElevatorInfoView> {
        match received {
            Some(info) => match self.slots[info.id as int] {
                PeerSlotView::Lost { info: kept } => Some(kept),
                _ => None,
            },
            None => None,
        }
    }

    /// A peer below `upto` expires at `now`.
    pub open spec fn any_expired_below(self, now: u64, upto: int) -> bool {
        exists|i: int| 0 <= i < upto && #[trigger] self.slots[i].expired(now, self.timeout)
    }

    /// The round at `now` changes what is known of the peers: the snapshot
    /// received is of a peer that was not alive, or differs from the one
    /// held of it, or some peer expires.
    pub open spec fn modified(self, received: Option<ElevatorInfoView>, now: u64) -> bool {
        ||| received matches Some(info) && (match self.slots[info.id as int] {
            PeerSlotView::Alive { info: held, .. } => held != info,
            _ => true,
        })
        ||| self.after_message(received, now).any_expired_below(now, self.slots.len() as int)
    }

    /// The snapshots of the peers that are alive, by identity.
    pub open spec fn alive(self) -> Seq<ElevatorInfoView> {
        self.slots.filter(is_alive()).map_values(alive_info())
    }
}

/// What the tracker knows of one identity of the cluster.
#[derive(Debug)]
pub enum PeerSlot {
    /// Nothing was ever heard of the elevator.
    Unknown,
    /// The elevator is alive: `info` was heard of it at `last_seen`.
    Alive { last_seen: u64, info: ElevatorInfo },
    /// The elevator is lost: `info` was heard last of it.
    Lost { info: ElevatorInfo },
}

impl View for PeerSlot {
    type V = PeerSlotView;

    open spec fn view(&self) -> PeerSlotView {
        match *self {
            PeerSlot::Unknown => PeerSlotView::Unknown,
            PeerSlot::Alive { last_seen, info } => PeerSlotView::Alive { last_seen, info: info@ },
            PeerSlot::Lost { info } => PeerSlotView::Lost { info: info@ },
        }
    }
}

/// The models of `slots`.
pub open spec fn peer_views(slots: Seq<PeerSlot>) -> Seq<PeerSlotView> {
    Seq::new(slots.len(), |i: int| slots[i]@)
}

/// The model of `received`.
pub open spec fn received_view(received: Option<ElevatorInfo>) -> Option<ElevatorInfoView> {
    match received {
        Some(info) => Some(info@),
        None => None,
    }
}

/// The models of `infos`.
pub open spec fn snapshot_views(infos: Seq<ElevatorInfo>) -> Seq<ElevatorInfoView> {
    Seq::new(infos.len(), |i: int| infos[i]@)
}

/// What one round of the tracker asks to send.
#[derive(Debug)]
pub struct PeerReport {
    /// Snapshot for the cab order backup channel, if any.
    pub cab_backup: Option<ElevatorInfo>,
    /// Snapshots of the peers that are alive, for the fleet view, if the
    /// round changed anything.
    pub peers: Option<Vec<ElevatorInfo>>,
}

/// Tracks which peers are alive. It reads neither the network nor a clock:
/// whoever drives it passes what arrived and the current instant, in
/// milliseconds since an epoch of their choice.
#[derive(Debug)]
pub struct PeerTracker {
    timeout: u64,
    slots: Vec<PeerSlot>,
}

impl View for PeerTracker {
    type V = PeerTrackerView;

    closed spec fn view(&self) -> PeerTrackerView {
        PeerTrackerView { timeout: self.timeout, slots: peer_views(self.slots@) }
    }
}

impl PeerTracker {
    /// A tracker for a cluster of `max_number_of_elevators` identities, in
    /// which a peer is lost after `timeout` milliseconds of silence. No peer
    /// is known yet.
    pub fn new(max_number_of_elevators: usize, timeout: u64) -> (tracker: PeerTracker)
        ensures
            tracker@.timeout == timeout,
            tracker@.slots == Seq::new(
                max_number_of_elevators as nat,
                |i: int| PeerSlotView::Unknown,
            ),
    {
        let mut slots: Vec<PeerSlot> = Vec::new();
        let mut i: usize = 0;
        while i < max_number_of_elevators
            invariant
                i <= max_number_of_elevators,
                slots@.len() == i,
                forall|j: int| 0 <= j < i ==> slots@[j]@ is Unknown,
            decreases max_number_of_elevators - i,
        {
            slots.push(PeerSlot::Unknown);
            i += 1;
        }
        let tracker = PeerTracker { timeout, slots };
        assert(tracker@.slots =~= Seq::new(
            max_number_of_elevators as nat,
            |i: int| PeerSlotView::Unknown,
        ));
        tracker
    }

    /// Number of identities of the cluster.
    pub fn max_number_of_elevators(&self) -> (len: usize)
        ensures
            len == self@.slots.len(),
    {
        self.slots.len()
    }

    /// One round of the tracker at the instant `now`: the snapshot
    /// `received` has arrived, or nothing has within the timeout. The peer
    /// heard of is alive, the peers not heard of for too long are lost. The
    /// report holds the backup for a peer that has come back, and the
    /// snapshots of the peers that are alive if the round changed anything.
    pub fn on_round(&mut self, received: Option<ElevatorInfo>, now: u64) -> (report: PeerReport)
        requires
            received matches Some(info) ==> info@.id < old(self)@.slots.len(),
        ensures
            final(self)@ == old(self)@.after_round(received_view(received), now),
            received_view(report.cab_backup) == old(self)@.backup_for(received_view(received)),
            report.peers is Some == old(self)@.modified(received_view(received), now),
            report.peers matches Some(peers) ==> snapshot_views(peers@) == final(self)@.alive(),
    {
        let ghost before = self@;
        let ghost heard = received_view(received);
        let mut modified: bool = false;
        let mut cab_backup: Option<ElevatorInfo> = None;
        match received {
            Some(elev_info) => {
                let id: usize = elev_info.get_id();
                proof {
                    assert(peer_views(self.slots@)[id as int] == before.slots[id as int]);
                }
                match &self.slots[id] {
                    PeerSlot::Alive { last_seen, info } => {
                        if *info != elev_info {
                            modified = true;
                        }
                    },
                    PeerSlot::Lost { info } => {
                        modified = true;
                        cab_backup = Some(info.clone());
                    },
                    PeerSlot::Unknown => {
                        modified = true;
                    },
                }
                self.slots[id] = PeerSlot::Alive { last_seen: now, info: elev_info };
                proof {
                    assert(self@.slots =~= before.after_message(heard, now).slots);
                }
            },
            None => {},
        }
        let ghost heard_of = self@;
        assert(heard_of == before.after_message(heard, now));
        let len: usize = self.slots.len();
        let mut i: usize = 0;
        let ghost modified_by_message = modified;
        while i < len
            invariant
                i <= len,
                len == heard_of.slots.len(),
                self@.timeout == heard_of.timeout,
                self@.slots.len() == len,
                forall|j: int|
                    0 <= j < i ==> #[trigger] self@.slots[j] == heard_of.slots[j].aged(
                        now,
                        heard_of.timeout,
                    ),
                forall|j: int| i <= j < len ==> #[trigger] self@.slots[j] == heard_of.slots[j],
                modified == (modified_by_message || heard_of.any_expired_below(now, i as int)),
            decreases len - i,
        {
            let ghost slots_before = self.slots@;
            proof {
                assert(peer_views(self.slots@)[i as int] == heard_of.slots[i as int]);
            }
            let expired: Option<ElevatorInfo> = match &self.slots[i] {
                PeerSlot::Alive { last_seen, info } => {
                    if now >= *last_seen && now - *last_seen > self.timeout {
                        Some(info.clone())
                    } else {
                        None
                    }
                },
                _ => None,
            };
            match expired {
                Some(info) => {
                    self.slots[i] = PeerSlot::Lost { info };
                    modified = true;
                },
                None => {},
            }
            proof {
                assert(self@.slots[i as int] == heard_of.slots[i as int].aged(now, heard_of.timeout));
                assert forall|j: int| 0 <= j < len && j != i implies #[trigger] self@.slots[j]
                    == peer_views(slots_before)[j] by {}
                if heard_of.slots[i as int].expired(now, heard_of.timeout) {
                    assert(heard_of.any_expired_below(now, i + 1));
                }
                if heard_of.any_expired_below(now, i + 1) && !heard_of.any_expired_below(
                    now,
                    i as int,
                ) {
                    assert(heard_of.slots[i as int].expired(now, heard_of.timeout));
                }
            }
            i += 1;
        }
        proof {
            assert(self@.slots =~= heard_of.after_expiry(now).slots);
        }
        let peers: Option<Vec<ElevatorInfo>> = if modified {
            Some(self.alive_peers())
        } else {
            None
        };
        PeerReport { cab_backup, peers }
    }

    /// Copies of the snapshots of the peers that are alive, by identity.
    pub fn alive_peers(&self) -> (peers: Vec<ElevatorInfo>)
        ensures
            snapshot_views(peers@) == self@.alive(),
    {
        let mut peers: Vec<ElevatorInfo> = Vec::new();
        let ghost slots = self@.slots;
        let mut i: usize = 0;
        proof {
            reveal(Seq::filter);
            assert(slots.take(0) =~= Seq::<PeerSlotView>::empty());
            assert(snapshot_views(peers@) =~= slots.take(0).filter(is_alive()).map_values(
                alive_info(),
            ));
        }
        while i < self.slots.len()
            invariant
                i <= self.slots.len(),
                slots == self@.slots,
                snapshot_views(peers@) == slots.take(i as int).filter(is_alive()).map_values(
                    alive_info(),
                ),
            decreases self.slots.len() - i,
        {
            let ghost peers_before = snapshot_views(peers@);
            proof {
                let slot = slots[i as int];
                assert(slot == self.slots@[i as int]@);
                assert(slots.take(i + 1) =~= slots.take(i as int).push(slot));
                slots.take(i as int).lemma_filter_push(slot, is_alive());
                assert(slots.take(i as int).filter(is_alive()).push(slot).map_values(alive_info())
                    =~= slots.take(i as int).filter(is_alive()).map_values(alive_info()).push(
                    alive_info()(slot),
                ));
            }
            match &self.slots[i] {
                PeerSlot::Alive { last_seen, info } => {
                    peers.push(info.clone());
                    proof {
                        assert(snapshot_views(peers@) =~= peers_before.push(info@));
                    }
                },
                _ => {},
            }
            i += 1;
        }
        proof {
            assert(slots.take(self.slots.len() as int) =~= slots);
        }
        peers
    }
}

/// A peer that is lost and comes back is sent what was known of it when it
/// was lost: if the tracker holds `info` of the alive peer `id` and hears
/// nothing of it until it has expired at `lost_at`, then the round in which
/// a snapshot of `id` arrives again reports `info` as backup.
pub proof fn lemma_lost_peer_is_backed_up(
    tracker: PeerTrackerView,
    id: int,
    lost_at: u64,
    back: ElevatorInfoView,
)
    requires
        0 <= id < tracker.slots.len(),
        tracker.slots[id].expired(lost_at, tracker.timeout),
        back.id == id,
    ensures
        tracker.after_round(None, lost_at).slots[id] == (PeerSlotView::Lost {
            info: tracker.slots[id]->Alive_info,
        }),
        tracker.after_round(None, lost_at).backup_for(Some(back)) == Some(
            tracker.slots[id]->Alive_info,
        ),
        tracker.after_round(None, lost_at).modified(Some(back), lost_at),
{
}

/// A snapshot equal to the one held of an alive peer changes nothing but the
/// instant at which the peer was heard last: no report is due.
pub proof fn lemma_same_snapshot_is_silent(
    tracker: PeerTrackerView,
    info: ElevatorInfoView,
    last_seen: u64,
    now: u64,
)
    requires
        0 <= info.id < tracker.slots.len(),
        tracker.slots[info.id as int] == (PeerSlotView::Alive { last_seen, info }),
        forall|i: int| 0 <= i < tracker.slots.len() ==> !#[trigger] tracker.slots[i].expired(now, tracker.timeout),
    ensures
        !tracker.modified(Some(info), now),
        tracker.after_round(Some(info), now).slots == tracker.slots.update(
            info.id as int,
            (PeerSlotView::Alive { last_seen: now, info }),
        ),
{
    let heard = tracker.after_message(Some(info), now);
    assert forall|i: int| 0 <= i < heard.slots.len() implies !#[trigger] heard.slots[i].expired(
        now,
        tracker.timeout,
    ) by {
        if i != info.id {
            assert(heard.slots[i] == tracker.slots[i]);
            assert(!tracker.slots[i].expired(now, tracker.timeout));
        }
    }
    let after = tracker.after_round(Some(info), now);
    assert forall|i: int| 0 <= i < after.slots.len() implies after.slots[i] == heard.slots[i] by {
        assert(!heard.slots[i].expired(now, tracker.timeout));
    }
    assert(after.slots =~= heard.slots);
}

} // verus!
