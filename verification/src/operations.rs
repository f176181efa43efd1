//! The identities of an owner's operations.
//!
//! An owner never reuses its own identity as that of a reservation: its
//! operations are named `owner/op/NNNNNN`, with a number that only grows. So a
//! slow or uncertain operation cannot be taken for a later one, and every
//! operation names the one owner it belongs to.

use crate::paper_account::{
    any_failed_reconciliation, has_failed_reconciliation, is_outcome_open, outcome_is_open,
    PaperAccountSnapshot, PaperReservation,
};
use crate::text::{
    after_prefix, all_digits, characters, digits_of, is_digit, joined, lemma_digits_read_back,
    padded_number, parse_u64, parsed_u64, starts_with, zero_padded,
};
use vstd::prelude::*;

verus! {

/// The digits that an operation number is padded to.
pub const OPERATION_NUMBER_WIDTH: usize = 6;

/// What every operation identity of the owner starts with.
pub open spec fn prefix_of(task_id: Seq<char>) -> Seq<char> {
    task_id + "/op/"@
}

/// An operation number as it stands in an identity.
pub open spec fn number_text(sequence: u64) -> Seq<char> {
    zero_padded(digits_of(sequence as nat), OPERATION_NUMBER_WIDTH as nat)
}

/// The identity of the owner's operation with this number.
pub open spec fn operation_id_of(task_id: Seq<char>, sequence: u64) -> Seq<char> {
    prefix_of(task_id) + number_text(sequence)
}

/// The idempotency key of the operation with this number.
pub open spec fn idempotency_key_of(kind: Seq<char>, sequence: u64) -> Seq<char> {
    kind + ":"@ + number_text(sequence)
}

pub fn operation_prefix(task_id: &str) -> (r: String)
    ensures
        r@ == prefix_of(task_id@),
{
    joined(task_id, "/op/")
}

/// The identity of the owner's operation with this number.
pub fn operation_id(task_id: &str, sequence: u64) -> (r: String)
    ensures
        r@ == operation_id_of(task_id@, sequence),
{
    joined(&operation_prefix(task_id), &padded_number(sequence, OPERATION_NUMBER_WIDTH))
}

/// The idempotency key of the operation with this number.
pub fn idempotency_key(kind: &str, sequence: u64) -> (r: String)
    ensures
        r@ == idempotency_key_of(kind@, sequence),
{
    joined(&joined(kind, ":"), &padded_number(sequence, OPERATION_NUMBER_WIDTH))
}

/// The identity consists of the prefix and at least one digit, and of nothing
/// else.
pub open spec fn belongs_to(task_id: Seq<char>, owner_prefix: Seq<char>) -> bool {
    &&& starts_with(task_id, owner_prefix)
    &&& task_id.len() > owner_prefix.len()
    &&& all_digits(task_id.skip(owner_prefix.len() as int))
}

fn only_digits(text: &str) -> (r: bool)
    ensures
        r == all_digits(text@),
{
    let chars: Vec<char> = characters(text);
    let mut i: usize = 0;
    while i < chars.len()
        invariant
            i <= chars.len(),
            chars@ == text@,
            forall|j: int| 0 <= j < i ==> is_digit(#[trigger] text@[j]),
        decreases chars.len() - i,
    {
        let c: char = chars[i];
        if !('0' <= c && c <= '9') {
            assert(!is_digit(text@[i as int]));
            return false;
        }
        i = i + 1;
    }
    true
}

/// The operation belongs to the owner with this prefix.
pub fn operation_task_belongs_to_owner(task_id: &str, owner_prefix: &str) -> (r: bool)
    ensures
        r == belongs_to(task_id@, owner_prefix@),
{
    match after_prefix(task_id, owner_prefix) {
        None => false,
        Some(sequence) => !sequence.as_str().is_empty() && only_digits(&sequence),
    }
}

/// The number of an operation that belongs to the owner.
pub open spec fn sequence_of(task_id: Seq<char>, owner_prefix: Seq<char>) -> Option<u64> {
    if belongs_to(task_id, owner_prefix) {
        parsed_u64(task_id.skip(owner_prefix.len() as int))
    } else {
        None
    }
}

/// The number of the operation, if it belongs to the owner and its number fits.
pub fn owner_operation_sequence(task_id: &str, owner_prefix: &str) -> (r: Option<u64>)
    ensures
        r == sequence_of(task_id@, owner_prefix@),
{
    match after_prefix(task_id, owner_prefix) {
        None => None,
        Some(sequence) => {
            if sequence.as_str().is_empty() || !only_digits(&sequence) {
                return None;
            }
            parse_u64(&sequence)
        },
    }
}

/// The identity of an operation names its owner and its number: it belongs to
/// the owner, and the number is read back from it.
pub proof fn law_operation_id_reads_back(task_id: Seq<char>, sequence: u64)
    ensures
        belongs_to(operation_id_of(task_id, sequence), prefix_of(task_id)),
        sequence_of(operation_id_of(task_id, sequence), prefix_of(task_id)) == Some(sequence),
{
    let id = operation_id_of(task_id, sequence);
    let prefix = prefix_of(task_id);
    let number = number_text(sequence);
    lemma_digits_read_back(sequence as nat, OPERATION_NUMBER_WIDTH as nat);
    assert(id.take(prefix.len() as int) =~= prefix);
    assert(id.skip(prefix.len() as int) =~= number);
    assert(is_digit(number[0]));
}

/// Two operations of one owner with different numbers have different
/// identities and different idempotency keys.
pub proof fn law_operation_ids_are_distinct(
    task_id: Seq<char>,
    kind: Seq<char>,
    first: u64,
    second: u64,
)
    requires
        first != second,
    ensures
        operation_id_of(task_id, first) != operation_id_of(task_id, second),
        idempotency_key_of(kind, first) != idempotency_key_of(kind, second),
{
    law_operation_id_reads_back(task_id, first);
    law_operation_id_reads_back(task_id, second);
    let a = idempotency_key_of(kind, first);
    let b = idempotency_key_of(kind, second);
    let head = (kind + ":"@).len() as int;
    assert(a.skip(head) =~= number_text(first));
    assert(b.skip(head) =~= number_text(second));
    lemma_digits_read_back(first as nat, OPERATION_NUMBER_WIDTH as nat);
    lemma_digits_read_back(second as nat, OPERATION_NUMBER_WIDTH as nat);
}

/// An operation belongs to at most one owner.
pub proof fn law_operation_has_one_owner(id: Seq<char>, a: Seq<char>, b: Seq<char>)
    requires
        belongs_to(id, prefix_of(a)),
        belongs_to(id, prefix_of(b)),
    ensures
        a == b,
{
    reveal_strlit("/op/");
    let (p, q) = (prefix_of(a), prefix_of(b));
    assert(id.take(p.len() as int)[p.len() - 1] == '/');
    assert(id.take(q.len() as int)[q.len() - 1] == '/');
    if p.len() < q.len() {
        assert(id.skip(p.len() as int)[q.len() - 1 - p.len()] == '/');
    } else if q.len() < p.len() {
        assert(id.skip(q.len() as int)[p.len() - 1 - q.len()] == '/');
    }
    assert(p =~= q);
    assert(a =~= p.take(a.len() as int));
    assert(b =~= q.take(b.len() as int));
}

/// How the operations of an owner are told from all others.
#[derive(Clone, Copy, Debug, PartialEq, Eq, Structural)]
pub enum Ownership {
    /// The prefix and digits, and nothing else.
    Digits,
    /// The prefix, whatever follows.
    Prefix,
    /// The prefix and digits that make a number.
    Numbered,
}

/// The reservation is one of the owner's operations.
pub open spec fn is_owned(ownership: Ownership, task_id: Seq<char>, prefix: Seq<char>) -> bool {
    match ownership {
        Ownership::Digits => belongs_to(task_id, prefix),
        Ownership::Prefix => starts_with(task_id, prefix),
        Ownership::Numbered => sequence_of(task_id, prefix) is Some,
    }
}

pub fn owned(ownership: Ownership, task_id: &str, prefix: &str) -> (r: bool)
    ensures
        r == is_owned(ownership, task_id@, prefix@),
{
    match ownership {
        Ownership::Digits => operation_task_belongs_to_owner(task_id, prefix),
        Ownership::Prefix => after_prefix(task_id, prefix).is_some(),
        Ownership::Numbered => owner_operation_sequence(task_id, prefix).is_some(),
    }
}

/// The largest number among the owner's operations, zero without any; nothing
/// where the outcome of one of them is not final or its number cannot be read.
pub open spec fn last_operation(
    ownership: Ownership,
    reservations: Seq<PaperReservation>,
    prefix: Seq<char>,
) -> Option<u64>
    decreases reservations.len(),
{
    if reservations.len() == 0 {
        Some(0)
    } else {
        let reservation = reservations.last();
        match last_operation(ownership, reservations.drop_last(), prefix) {
            None => None,
            Some(before) => if !is_owned(ownership, reservation.task_id@, prefix) {
                Some(before)
            } else if outcome_is_open(reservation.phase) {
                None
            } else {
                match parsed_u64(reservation.task_id@.skip(prefix.len() as int)) {
                    None => None,
                    Some(sequence) => Some(
                        if sequence > before {
                            sequence
                        } else {
                            before
                        },
                    ),
                }
            },
        }
    }
}

proof fn lemma_last_operation_stays_none(
    ownership: Ownership,
    reservations: Seq<PaperReservation>,
    prefix: Seq<char>,
    k: int,
)
    requires
        0 <= k <= reservations.len(),
        last_operation(ownership, reservations.take(k), prefix) is None,
    ensures
        last_operation(ownership, reservations, prefix) is None,
    decreases reservations.len(),
{
    if k == reservations.len() {
        assert(reservations.take(k) =~= reservations);
    } else {
        assert(reservations.drop_last().take(k) =~= reservations.take(k));
        lemma_last_operation_stays_none(ownership, reservations.drop_last(), prefix, k);
    }
}

/// What a new owner takes over from the account: the number of its last
/// operation. Nothing where the account has to be reconciled first: the
/// projection is incomplete, some reconciliation failed, or one of the owner's
/// operations is not final.
pub open spec fn preflight_of(
    ownership: Ownership,
    snapshot: PaperAccountSnapshot,
    task_id: Seq<char>,
) -> Option<u64> {
    if !snapshot.projection_complete || has_failed_reconciliation(snapshot.reservations@) {
        None
    } else {
        last_operation(ownership, snapshot.reservations@, prefix_of(task_id))
    }
}

/// The number of the owner's last operation; nothing where the account has to
/// be reconciled first.
pub fn account_preflight(
    ownership: Ownership,
    snapshot: &PaperAccountSnapshot,
    task_id: &str,
) -> (r: Option<u64>)
    ensures
        r == preflight_of(ownership, *snapshot, task_id@),
{
    if !snapshot.projection_complete || any_failed_reconciliation(&snapshot.reservations) {
        return None;
    }
    let prefix: String = operation_prefix(task_id);
    let reservations: &Vec<PaperReservation> = &snapshot.reservations;
    let mut last: u64 = 0;
    let mut i: usize = 0;
    while i < reservations.len()
        invariant
            i <= reservations.len(),
            reservations == &snapshot.reservations,
            prefix@ == prefix_of(task_id@),
            snapshot.projection_complete,
            !has_failed_reconciliation(reservations@),
            last_operation(ownership, reservations@.take(i as int), prefix@) == Some(last),
        decreases reservations.len() - i,
    {
        let reservation: &PaperReservation = &reservations[i];
        assert(reservations@.take(i + 1).drop_last() =~= reservations@.take(i as int));
        if owned(ownership, &reservation.task_id, &prefix) {
            let sequence: Option<u64> = if is_outcome_open(reservation.phase) {
                None
            } else {
                match after_prefix(&reservation.task_id, &prefix) {
                    Some(suffix) => parse_u64(&suffix),
                    None => None,
                }
            };
            match sequence {
                None => {
                    proof {
                        lemma_last_operation_stays_none(
                            ownership,
                            reservations@,
                            prefix@,
                            i + 1,
                        );
                    }
                    return None;
                },
                Some(found) => {
                    if found > last {
                        last = found;
                    }
                },
            }
        }
        i = i + 1;
    }
    assert(reservations@.take(i as int) =~= reservations@);
    Some(last)
}

/// The number that a new owner continues from is at least that of each of its
/// operations, so the next one is new.
pub proof fn law_preflight_number_is_the_largest(
    ownership: Ownership,
    reservations: Seq<PaperReservation>,
    prefix: Seq<char>,
    i: int,
)
    requires
        last_operation(ownership, reservations, prefix) is Some,
        0 <= i < reservations.len(),
        is_owned(ownership, reservations[i].task_id@, prefix),
    ensures
        !outcome_is_open(reservations[i].phase),
        parsed_u64(reservations[i].task_id@.skip(prefix.len() as int)) is Some,
        parsed_u64(reservations[i].task_id@.skip(prefix.len() as int))->0 <= last_operation(
            ownership,
            reservations,
            prefix,
        )->0,
    decreases reservations.len(),
{
    if i < reservations.len() - 1 {
        assert(reservations.drop_last()[i] == reservations[i]);
        law_preflight_number_is_the_largest(ownership, reservations.drop_last(), prefix, i);
    }
}

} // verus!
