//! Swapping the values of two slots: the rotation through two places.

use crate::rotate::{relayed, rotate, rotated, visits};
use crate::take::Tier;
use vstd::prelude::*;

verus! {

/// The slots after the values at `first` and `second` were swapped, where
/// the extraction at `first` handed out `taken` and left `left` behind.
///
/// Two different slots exchange their values. A slot that is swapped with
/// itself ends up with what the extraction left in it.
pub open spec fn swapped<T>(slots: Seq<T>, first: int, second: int, taken: T, left: T) -> Seq<T> {
    if first == second {
        slots.update(first, left)
    } else {
        slots.update(first, slots[second]).update(second, taken)
    }
}

/// A swap is the rotation through its two places.
pub proof fn law_swap_is_rotation<T>(slots: Seq<T>, first: usize, second: usize, taken: T, left: T)
    requires
        first < slots.len(),
        second < slots.len(),
    ensures
        rotated(slots, seq![first, second], taken, left) == swapped(
            slots,
            first as int,
            second as int,
            taken,
            left,
        ),
{
    let places = seq![first, second];
    let emptied = slots.update(first as int, left);
    let targets = visits(places).drop_first();
    let stored = emptied.update(second as int, taken);
    assert(targets =~= seq![second, first]);
    assert(targets.drop_first() =~= seq![first]);
    assert(targets.drop_first().drop_first() =~= Seq::<usize>::empty());
    assert(relayed(emptied, targets, taken) == relayed(
        stored,
        targets.drop_first(),
        emptied[second as int],
    ));
    assert(relayed(stored, targets.drop_first(), emptied[second as int]) == relayed(
        stored.update(first as int, emptied[second as int]),
        targets.drop_first().drop_first(),
        stored[first as int],
    ));
    assert(stored.update(first as int, emptied[second as int]) =~= swapped(
        slots,
        first as int,
        second as int,
        taken,
        left,
    ));
}

/// Swaps the values of the slots at `first` and `second`.
///
/// The value at `first` is extracted as the tier `X` prescribes and stored
/// at `second`; what `second` held is stored at `first`. Only one slot is
/// borrowed at a time, so the two may be the same slot.
pub fn swap<X: Tier<T>, T>(slots: &mut [T], first: usize, second: usize)
    requires
        first < old(slots)@.len(),
        second < old(slots)@.len(),
    ensures
        final(slots)@.len() == old(slots)@.len(),
        exists|taken: T, left: T|
            #![trigger swapped(old(slots)@, first as int, second as int, taken, left)]
            X::yields(old(slots)@[first as int], taken) && X::leaves(
                old(slots)@[first as int],
                left,
            ) && final(slots)@ == swapped(old(slots)@, first as int, second as int, taken, left),
{
    let places: [usize; 2] = [first, second];
    let ghost before = slots@;
    assert(places@ =~= seq![first, second]);
    rotate::<X, T>(slots, places.as_slice());
    proof {
        let (taken, left) = choose|taken: T, left: T|
            #![trigger rotated(before, places@, taken, left)]
            X::yields(before[first as int], taken) && X::leaves(before[first as int], left)
                && slots@ == rotated(before, places@, taken, left);
        law_swap_is_rotation(before, first, second, taken, left);
        assert(slots@ == swapped(before, first as int, second as int, taken, left));
    }
}

/// Two swaps of two different slots, each handing on the value that its
/// first slot held, restore every slot.
pub proof fn law_swap_twice_restores<T>(
    slots: Seq<T>,
    first: int,
    second: int,
    left: T,
    left_again: T,
)
    requires
        0 <= first < slots.len(),
        0 <= second < slots.len(),
        first != second,
    ensures
        ({
            let once = swapped(slots, first, second, slots[first], left);
            swapped(once, first, second, once[first], left_again)
        }) == slots,
{
    let once = swapped(slots, first, second, slots[first], left);
    assert(swapped(once, first, second, once[first], left_again) =~= slots);
}

/// A slot that is swapped with itself keeps its value where the extraction
/// leaves the value in the slot, whatever it hands out. (Where the
/// extraction leaves a default value instead, that default is what the slot
/// ends up with.)
pub proof fn law_self_swap_changes_nothing<T>(slots: Seq<T>, place: int, taken: T)
    requires
        0 <= place < slots.len(),
    ensures
        swapped(slots, place, place, taken, slots[place]) == slots,
{
    assert(swapped(slots, place, place, taken, slots[place]) =~= slots);
}

} // verus!
