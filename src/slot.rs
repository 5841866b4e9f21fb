//! The model of a write-once slot: it holds zero or one value, and these spec
//! functions say what one attempt to write it does. The laws below follow
//! from them.

use vstd::prelude::*;

verus! {

/// The slot after an attempt to store `value`: an empty slot takes the value,
/// a full one stays exactly as it was.
pub open spec fn slot_after_set<T>(slot: Option<T>, value: T) -> Option<T> {
    match slot {
        Some(_) => slot,
        None => Some(value),
    }
}

/// What an attempt to store `value` reports: success on an empty slot, and
/// the rejected value itself, handed back, on a full one.
pub open spec fn set_outcome<T>(slot: Option<T>, value: T) -> Result<(), T> {
    match slot {
        Some(_) => Err(value),
        None => Ok(()),
    }
}

/// The slot after attempts to store each of `values`, in order.
pub open spec fn slot_after_sets<T>(slot: Option<T>, values: Seq<T>) -> Option<T>
    decreases values.len(),
{
    if values.len() == 0 {
        slot
    } else {
        slot_after_sets(slot_after_set(slot, values[0]), values.drop_first())
    }
}

/// The first store into an empty slot succeeds, and the slot then holds
/// exactly the stored value.
pub proof fn lemma_first_set_is_read_back<T>(value: T)
    ensures
        set_outcome(None::<T>, value) is Ok,
        slot_after_set(None::<T>, value) == Some(value),
{
}

/// Of two stores into an empty slot the first succeeds and the second fails,
/// handing its own value back; the slot keeps the first value.
pub proof fn lemma_second_set_is_rejected<T>(first: T, second: T)
    ensures
        set_outcome(None::<T>, first) is Ok,
        set_outcome(slot_after_set(None::<T>, first), second) == Err::<(), T>(second),
        slot_after_sets(None::<T>, seq![first, second]) == Some(first),
{
    let s = seq![first, second];
    lemma_full_slot_is_stable(first, s.drop_first());
}

/// A store never empties the slot, and never changes a slot that is already
/// full.
pub proof fn lemma_set_never_replaces<T>(slot: Option<T>, value: T)
    ensures
        slot_after_set(slot, value) is Some,
        slot is Some ==> slot_after_set(slot, value) == slot,
{
}

/// Once full, a slot keeps its value through any further stores.
pub proof fn lemma_full_slot_is_stable<T>(stored: T, values: Seq<T>)
    ensures
        slot_after_sets(Some(stored), values) == Some(stored),
    decreases values.len(),
{
    if values.len() > 0 {
        lemma_full_slot_is_stable(stored, values.drop_first());
    }
}

/// Of any run of stores into an empty slot, only the first lands: every later
/// one fails and hands its own value back, and the slot ends holding the
/// first value.
pub proof fn lemma_only_first_set_lands<T>(values: Seq<T>)
    requires
        values.len() > 0,
    ensures
        slot_after_sets(None::<T>, values) == Some(values[0]),
        forall|i: int|
            1 <= i < values.len() ==> #[trigger] set_outcome(
                slot_after_sets(None::<T>, values.take(i)),
                values[i],
            ) == Err::<(), T>(values[i]),
{
    lemma_full_slot_is_stable(values[0], values.drop_first());
    assert forall|i: int| 1 <= i < values.len() implies #[trigger] set_outcome(
        slot_after_sets(None::<T>, values.take(i)),
        values[i],
    ) == Err::<(), T>(values[i]) by {
        let prefix = values.take(i);
        lemma_full_slot_is_stable(values[0], prefix.drop_first());
        assert(prefix[0] == values[0]);
    }
}

} // verus!
