//! How the pending capacity of an owner that ended is kept as uncertain.
//!
//! The account's lane is taken over first. Each pending reservation of the
//! owner is marked in turn; what a refusal means, and whether the lane is given
//! back at the end, depends on the kind of the owner.

use crate::arbitrage_account::account_decision_snapshot;
use crate::operations::{prefix_of, Ownership};
use crate::paper_account::{has_failed_reconciliation, PaperAccountSnapshot};
use crate::paper_grid_task::{pending_ids, retain_active_capacity};
use vstd::prelude::*;

verus! {

/// The kinds of owners.
#[derive(Clone, Copy, Debug, PartialEq, Eq, Structural)]
pub enum OwnerKind {
    Grid,
    Arbitrage,
    VolumeMaker,
}

impl OwnerKind {
    /// An owner of this kind holds the account's lane while it operates.
    pub fn holds_lane(self) -> (r: bool)
        ensures
            r == (self != OwnerKind::VolumeMaker),
    {
        self != OwnerKind::VolumeMaker
    }
}

/// How the operations of an owner of this kind are told from all others.
pub open spec fn ownership_of(kind: OwnerKind) -> Ownership {
    match kind {
        OwnerKind::Grid => Ownership::Digits,
        OwnerKind::Arbitrage => Ownership::Numbered,
        OwnerKind::VolumeMaker => Ownership::Prefix,
    }
}

/// What is to be done next.
#[derive(Clone, Copy, Debug, PartialEq, Eq, Structural)]
pub enum CapacityAction {
    /// To mark the reservation as uncertain.
    MarkUncertain { reservation_id: u128 },
    /// It is over, and a lane that the owner held is given back.
    ReleaseLane,
    /// It is over, and a lane that the owner held stays closed.
    KeepLaneClosed,
}

/// The pending reservations of the owner, in the order of the account; nothing
/// where the account cannot be read, or where an arbitrage owner takes no
/// decision on it.
pub open spec fn retained_ids(
    kind: OwnerKind,
    account: Option<PaperAccountSnapshot>,
    task_id: Seq<char>,
) -> Option<Seq<u128>> {
    match account {
        None => None,
        Some(snapshot) => if kind == OwnerKind::Arbitrage && has_failed_reconciliation(
            snapshot.reservations@,
        ) {
            None
        } else {
            Some(pending_ids(ownership_of(kind), snapshot.reservations@, prefix_of(task_id)))
        },
    }
}

/// Something was refused: an arbitrage owner's lane stays closed, and the
/// others go on without it.
pub open spec fn stops_at_refusal(kind: OwnerKind) -> bool {
    kind == OwnerKind::Arbitrage
}

/// What is to be done once the first `place` reservations were marked or
/// passed over.
pub open spec fn mark_at(ids: Seq<u128>, place: int) -> CapacityAction {
    if place < ids.len() {
        CapacityAction::MarkUncertain { reservation_id: ids[place] }
    } else {
        CapacityAction::ReleaseLane
    }
}

/// What is to be done first.
pub open spec fn first_mark(kind: OwnerKind, ids: Option<Seq<u128>>) -> CapacityAction {
    match ids {
        Some(found) => mark_at(found, 0),
        None => if stops_at_refusal(kind) {
            CapacityAction::KeepLaneClosed
        } else {
            CapacityAction::ReleaseLane
        },
    }
}

/// What is to be done after the account answered to the mark at `place`.
pub open spec fn next_mark(
    kind: OwnerKind,
    ids: Seq<u128>,
    place: int,
    marked: bool,
) -> CapacityAction {
    if !marked && stops_at_refusal(kind) {
        CapacityAction::KeepLaneClosed
    } else {
        mark_at(ids, place + 1)
    }
}

/// The retention of one owner's capacity, while it goes on.
#[derive(Debug)]
pub struct CapacityRetention {
    kind: OwnerKind,
    ids: Vec<u128>,
    place: usize,
}

impl CapacityRetention {
    pub closed spec fn kind_view(self) -> OwnerKind {
        self.kind
    }

    /// The reservations that are to be marked.
    pub closed spec fn ids_view(self) -> Seq<u128> {
        self.ids@
    }

    /// How many of them were answered for.
    pub closed spec fn place_view(self) -> int {
        self.place as int
    }

    #[verifier::type_invariant]
    pub closed spec fn is_within(self) -> bool {
        self.place <= self.ids@.len()
    }

    /// Starts with what the account shows; the lane has to be held.
    pub fn start(kind: OwnerKind, account: Option<&PaperAccountSnapshot>, task_id: &str) -> (r: (
        CapacityRetention,
        CapacityAction,
    ))
        ensures
            ({
                let ids = retained_ids(
                    kind,
                    match account {
                        Some(snapshot) => Some(*snapshot),
                        None => None,
                    },
                    task_id@,
                );
                &&& r.0.kind_view() == kind
                &&& r.0.place_view() == 0
                &&& r.0.ids_view() == match ids {
                    Some(found) => found,
                    None => Seq::empty(),
                }
                &&& r.1 == first_mark(kind, ids)
            }),
    {
        let none: CapacityRetention = CapacityRetention { kind, ids: Vec::new(), place: 0 };
        let closed: bool = kind == OwnerKind::Arbitrage;
        let unread: CapacityAction = if closed {
            CapacityAction::KeepLaneClosed
        } else {
            CapacityAction::ReleaseLane
        };
        let snapshot: &PaperAccountSnapshot = match account {
            Some(snapshot) => snapshot,
            None => return (none, unread),
        };
        if closed && account_decision_snapshot(snapshot).is_err() {
            return (none, unread);
        }
        let ownership: Ownership = match kind {
            OwnerKind::Grid => Ownership::Digits,
            OwnerKind::Arbitrage => Ownership::Numbered,
            OwnerKind::VolumeMaker => Ownership::Prefix,
        };
        let ids: Vec<u128> = retain_active_capacity(ownership, &snapshot.reservations, task_id);
        let first: CapacityAction = if ids.len() > 0 {
            CapacityAction::MarkUncertain { reservation_id: ids[0] }
        } else {
            CapacityAction::ReleaseLane
        };
        (CapacityRetention { kind, ids, place: 0 }, first)
    }

    /// Takes whether the account marked the reservation and says what to do
    /// next.
    pub fn answered(self, marked: bool) -> (r: (CapacityRetention, CapacityAction))
        ensures
            r.0.kind_view() == self.kind_view(),
            r.0.ids_view() == self.ids_view(),
            self.place_view() < self.ids_view().len() ==> {
                &&& r.0.place_view() == self.place_view() + 1
                &&& r.1 == next_mark(self.kind_view(), self.ids_view(), self.place_view(), marked)
            },
            self.place_view() >= self.ids_view().len() ==> r.0 == self && r.1
                == CapacityAction::KeepLaneClosed,
    {
        proof {
            use_type_invariant(&self);
        }
        if self.place == self.ids.len() {
            return (self, CapacityAction::KeepLaneClosed);
        }
        let place: usize = self.place + 1;
        let action: CapacityAction = if !marked && self.kind == OwnerKind::Arbitrage {
            CapacityAction::KeepLaneClosed
        } else if place < self.ids.len() {
            CapacityAction::MarkUncertain { reservation_id: self.ids[place] }
        } else {
            CapacityAction::ReleaseLane
        };
        (CapacityRetention { kind: self.kind, ids: self.ids, place }, action)
    }
}

/// What is to be done after the account answered to as many marks as there are
/// answers.
pub open spec fn after_answers(kind: OwnerKind, ids: Seq<u128>, answers: Seq<bool>) -> CapacityAction
    decreases answers.len(),
{
    if answers.len() == 0 {
        mark_at(ids, 0)
    } else {
        match after_answers(kind, ids, answers.drop_last()) {
            CapacityAction::MarkUncertain { .. } => next_mark(
                kind,
                ids,
                answers.len() - 1,
                answers.last(),
            ),
            ended => ended,
        }
    }
}

/// Every pending reservation is marked in turn. An arbitrage owner's retention
/// ends at the first refusal, with the lane left closed, and gives the lane
/// back only where every reservation was marked; that of any other owner passes
/// a refusal over and always gives the lane back.
pub proof fn law_refused_capacity_keeps_the_lane_closed(
    kind: OwnerKind,
    ids: Seq<u128>,
    answers: Seq<bool>,
)
    requires
        answers.len() <= ids.len(),
    ensures
        ({
            let refused = stops_at_refusal(kind) && answers.contains(false);
            let action = after_answers(kind, ids, answers);
            &&& action == CapacityAction::KeepLaneClosed <==> refused
            &&& action == CapacityAction::ReleaseLane <==> !refused && answers.len() == ids.len()
            &&& !refused && answers.len() < ids.len() ==> action == (
            CapacityAction::MarkUncertain { reservation_id: ids[answers.len() as int] })
        }),
    decreases answers.len(),
{
    if answers.len() > 0 {
        let shorter = answers.drop_last();
        law_refused_capacity_keeps_the_lane_closed(kind, ids, shorter);
        assert(answers.contains(false) <==> shorter.contains(false) || !answers.last()) by {
            if shorter.contains(false) {
                let i = choose|i: int| 0 <= i < shorter.len() && shorter[i] == false;
                assert(answers[i] == false);
            }
            if !answers.last() {
                assert(answers[answers.len() - 1] == false);
            }
            if answers.contains(false) {
                let i = choose|i: int| 0 <= i < answers.len() && answers[i] == false;
                if i < shorter.len() {
                    assert(shorter[i] == false);
                }
            }
        }
    }
}

} // verus!
