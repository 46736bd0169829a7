//! Cursor and gap resolution.
//!
//! The cursor is the next slot the ingestion loop expects to process: one more
//! than the highest slot it has attempted. Every notification is resolved
//! against it, without any I/O, into the closed range of slots that must be
//! backfilled (or none, when the notification is stale) and the cursor that
//! holds once that range has been processed.

use vstd::prelude::*;

verus! {

/// The slot a notification stands for once the node's confirmation depth is
/// taken off: `raw - lag`, and zero where that would be negative.
pub open spec fn adjusted(raw: int, lag: int) -> int {
    if raw >= lag {
        raw - lag
    } else {
        0
    }
}

/// A notification is stale when its adjusted slot lies below the cursor.
pub open spec fn is_stale(cursor: int, raw: int, lag: int) -> bool {
    adjusted(raw, lag) < cursor
}

/// The cursor after a notification: unchanged when it is stale, one past the
/// adjusted slot otherwise.
pub open spec fn next_cursor(cursor: int, raw: int, lag: int) -> int {
    if is_stale(cursor, raw, lag) {
        cursor
    } else {
        adjusted(raw, lag) + 1
    }
}

/// The slots of the closed interval `[from, to]`, in increasing order; empty
/// when `to < from`.
pub open spec fn slots_between(from: int, to: int) -> Seq<int> {
    if to < from {
        Seq::empty()
    } else {
        Seq::new((to - from + 1) as nat, |i: int| from + i)
    }
}

/// The slots a notification asks to backfill, in the order in which they are
/// processed.
pub open spec fn backfill_slots(cursor: int, raw: int, lag: int) -> Seq<int> {
    if is_stale(cursor, raw, lag) {
        Seq::empty()
    } else {
        slots_between(cursor, adjusted(raw, lag))
    }
}

/// Takes the confirmation depth `lag` off an announced slot, stopping at zero.
pub fn adjusted_slot(raw: u64, lag: u64) -> (slot: u64)
    ensures
        slot == adjusted(raw as int, lag as int),
{
    if raw >= lag {
        raw - lag
    } else {
        0
    }
}

/// A closed interval of slots, `from <= to`, processed in increasing order.
#[derive(Clone, Copy, Debug, PartialEq, Eq, Structural)]
pub struct SlotRange {
    pub from: u64,
    pub to: u64,
}

impl SlotRange {
    /// The slots of the range, in increasing order.
    pub open spec fn slots(self) -> Seq<int> {
        slots_between(self.from as int, self.to as int)
    }
}

/// The next slot the loop expects to process.
///
/// A cursor is one more than a slot, so it ranges over `0..=2^64`; it is kept
/// in a `u128` so that the slot after `u64::MAX` has a value too. From that
/// value on every notification is stale.
#[derive(Clone, Copy, Debug, PartialEq, Eq, Structural)]
pub struct Cursor {
    pub next: u128,
}

impl View for Cursor {
    type V = int;

    open spec fn view(&self) -> int {
        self.next as int
    }
}

/// What one notification resolves to: the range to backfill, if any, and the
/// cursor that holds once the range has been processed.
#[derive(Clone, Copy, Debug, PartialEq, Eq, Structural)]
pub struct Resolution {
    pub backfill: Option<SlotRange>,
    pub next: Cursor,
}

impl Cursor {
    /// The cursor that expects `slot` next.
    pub fn at(slot: u64) -> (cursor: Cursor)
        ensures
            cursor@ == slot,
    {
        Cursor { next: slot as u128 }
    }

    /// The cursor that follows `slot`: `slot + 1`.
    pub fn after(slot: u64) -> (cursor: Cursor)
        ensures
            cursor@ == slot + 1,
    {
        Cursor { next: slot as u128 + 1 }
    }

    /// The expected slot as a `u64`, or `None` once the cursor has passed the
    /// last slot a `u64` can name.
    pub fn next_slot(&self) -> (slot: Option<u64>)
        ensures
            self@ <= u64::MAX ==> slot == Some(self@ as u64),
            self@ > u64::MAX ==> slot is None,
    {
        if self.next <= u64::MAX as u128 {
            Some(self.next as u64)
        } else {
            None
        }
    }

    /// What a notification of `raw` resolves to against this cursor.
    pub open spec fn resolved(self, raw: u64, lag: u64) -> Resolution {
        if is_stale(self@, raw as int, lag as int) {
            Resolution { backfill: None, next: self }
        } else {
            Resolution {
                backfill: Some(
                    SlotRange { from: self.next as u64, to: adjusted(raw as int, lag as int) as u64 },
                ),
                next: Cursor { next: (adjusted(raw as int, lag as int) + 1) as u128 },
            }
        }
    }

    /// Resolves a notification of `raw` against this cursor.
    ///
    /// With `a` the adjusted slot: when `a` is at or past the cursor, the range
    /// is exactly `[cursor, a]` and the next cursor is `a + 1`; when `a` lies
    /// below the cursor, there is no range and the cursor stays. The cursor
    /// itself is only read.
    pub fn resolve(&self, raw: u64, lag: u64) -> (resolution: Resolution)
        ensures
            resolution == self.resolved(raw, lag),
            resolution.next@ == next_cursor(self@, raw as int, lag as int),
            match resolution.backfill {
                Some(range) => range.slots() == backfill_slots(self@, raw as int, lag as int),
                None => backfill_slots(self@, raw as int, lag as int).len() == 0,
            },
    {
        let target = adjusted_slot(raw, lag);
        if target as u128 >= self.next {
            Resolution {
                backfill: Some(SlotRange { from: self.next as u64, to: target }),
                next: Cursor::after(target),
            }
        } else {
            Resolution { backfill: None, next: *self }
        }
    }
}

/// Resolution, case by case: the adjusted slot is `max(raw - lag, 0)`; at or
/// past the cursor it yields exactly the slots `cursor, cursor + 1, .., a` and
/// the cursor `a + 1`; below the cursor it yields no slot and leaves the
/// cursor where it was.
pub proof fn lemma_resolution_cases(cursor: int, raw: int, lag: int)
    requires
        0 <= cursor,
        0 <= raw,
        0 <= lag,
    ensures
        adjusted(raw, lag) == if raw - lag > 0 { raw - lag } else { 0 },
        adjusted(raw, lag) >= cursor ==> {
            &&& backfill_slots(cursor, raw, lag).len() == adjusted(raw, lag) - cursor + 1
            &&& backfill_slots(cursor, raw, lag).first() == cursor
            &&& backfill_slots(cursor, raw, lag).last() == adjusted(raw, lag)
            &&& forall|i: int|
                0 <= i < backfill_slots(cursor, raw, lag).len() ==> #[trigger] backfill_slots(
                    cursor,
                    raw,
                    lag,
                )[i] == cursor + i
            &&& next_cursor(cursor, raw, lag) == adjusted(raw, lag) + 1
        },
        adjusted(raw, lag) < cursor ==> {
            &&& backfill_slots(cursor, raw, lag) == Seq::<int>::empty()
            &&& next_cursor(cursor, raw, lag) == cursor
        },
{
}

/// Resolving is a function of the cursor and the notification alone, and it
/// only reads the cursor: two cursors at the same slot resolve the same
/// notification to the same range and the same next cursor, so resolving again
/// without applying the first result changes nothing. Once a result has been
/// applied, the same notification is stale: it asks for no slot and leaves the
/// cursor where the first result put it.
pub proof fn lemma_resolve_idempotent(first: Cursor, second: Cursor, raw: u64, lag: u64)
    requires
        first@ == second@,
    ensures
        first.resolved(raw, lag) == second.resolved(raw, lag),
        first.resolved(raw, lag).next.resolved(raw, lag) == (Resolution {
            backfill: None,
            next: first.resolved(raw, lag).next,
        }),
{
}

/// The cursor never moves back, and after a notification it lies past the
/// notification's adjusted slot.
pub proof fn lemma_cursor_monotonic(cursor: int, raw: int, lag: int)
    ensures
        next_cursor(cursor, raw, lag) >= cursor,
        next_cursor(cursor, raw, lag) > adjusted(raw, lag),
{
}

} // verus!
