//! The relay protocol: rotating values through a sequence of slots.
//!
//! The slots live in one slice, and a place is an index into it. Places may
//! repeat: two places that are equal denote the same slot.

use crate::replace::Replace;
use crate::take::Tier;
use vstd::prelude::*;

verus! {

/// The order in which a rotation visits its places: each place once, in the
/// order given, and then the first place a second time.
pub open spec fn visits(places: Seq<usize>) -> Seq<usize>
    recommends
        places.len() >= 1,
{
    places.push(places[0])
}

/// The slots after `value` was relayed through `targets`: the value is
/// stored at the first target, what that slot held is stored at the second,
/// and so on. What the last target held is dropped.
pub open spec fn relayed<T>(slots: Seq<T>, targets: Seq<usize>, value: T) -> Seq<T>
    decreases targets.len(),
{
    if targets.len() == 0 {
        slots
    } else {
        relayed(
            slots.update(targets[0] as int, value),
            targets.drop_first(),
            slots[targets[0] as int],
        )
    }
}

/// The slots after a rotation through `places`, where the extraction at the
/// first place handed out `taken` and left `left` behind.
pub open spec fn rotated<T>(slots: Seq<T>, places: Seq<usize>, taken: T, left: T) -> Seq<T>
    recommends
        places.len() >= 1,
{
    relayed(slots.update(places[0] as int, left), visits(places).drop_first(), taken)
}

/// Whether every place is the index of a slot.
pub open spec fn in_bounds(places: Seq<usize>, len: nat) -> bool {
    forall|i: int| 0 <= i < places.len() ==> places[i] < len
}

/// The places of a rotation in the order in which it visits them.
pub fn visit_order(places: &[usize]) -> (order: Vec<usize>)
    requires
        places@.len() >= 1,
    ensures
        order@ == visits(places@),
{
    let mut order: Vec<usize> = Vec::new();
    let mut k: usize = 0;
    while k < places.len()
        invariant
            k <= places@.len(),
            order@ == places@.subrange(0, k as int),
        decreases places@.len() - k,
    {
        order.push(places[k]);
        k += 1;
    }
    order.push(places[0]);
    proof {
        assert(places@.subrange(0, places@.len() as int) == places@);
    }
    order
}

/// Rotates the values of the slots at `places` by one position: where no
/// place occurs twice, each place receives what the place before it held,
/// and the first place receives what the last one held.
///
/// The value of the first place is extracted as the tier `X` prescribes. It
/// is then stored at the second place, what the second place held is stored
/// at the third, and so on; what the last place held is stored at the first.
/// Only one slot is borrowed at a time, so places may repeat; the stores
/// then happen to the same slot one after the other, in this order.
pub fn rotate<X: Tier<T>, T>(slots: &mut [T], places: &[usize])
    requires
        places@.len() >= 1,
        in_bounds(places@, old(slots)@.len()),
    ensures
        final(slots)@.len() == old(slots)@.len(),
        exists|taken: T, left: T|
            #![trigger rotated(old(slots)@, places@, taken, left)]
            X::yields(old(slots)@[places@[0] as int], taken)
                && X::leaves(old(slots)@[places@[0] as int], left)
                && final(slots)@ == rotated(old(slots)@, places@, taken, left),
{
    let order = visit_order(places);
    let ghost targets = order@.drop_first();
    let ghost before = slots@;
    let mut relay = X::extract(&mut slots[order[0]]);
    let ghost taken = relay;
    let ghost emptied = slots@;
    proof {
        assert(targets.subrange(0, targets.len() as int) == targets);
        assert(emptied == before.update(places@[0] as int, emptied[places@[0] as int]));
    }
    let mut k: usize = 1;
    while k < order.len()
        invariant
            1 <= k <= order@.len(),
            order@ == visits(places@),
            targets == order@.drop_first(),
            slots@.len() == emptied.len(),
            in_bounds(places@, slots@.len()),
            relayed(slots@, targets.subrange(k - 1, targets.len() as int), relay) == relayed(
                emptied,
                targets,
                taken,
            ),
        decreases order@.len() - k,
    {
        let ghost rest = targets.subrange(k - 1, targets.len() as int);
        relay = Replace::replace(&mut slots[order[k]], relay);
        proof {
            assert(rest[0] == order@[k as int]);
            assert(rest.drop_first() == targets.subrange(k as int, targets.len() as int));
        }
        k += 1;
    }
    proof {
        assert(rotated(before, places@, taken, emptied[places@[0] as int]) == slots@);
    }
}

/// The position that comes before position `i` in a cycle of `n` positions.
pub open spec fn preceding(i: int, n: int) -> int {
    if i == 0 {
        n - 1
    } else {
        i - 1
    }
}

/// Whether slot `j` is none of the places.
pub open spec fn untouched(places: Seq<usize>, j: int) -> bool {
    forall|i: int| 0 <= i < places.len() ==> places[i] != j
}

/// The slots after `times` rotations through `places`, each of which hands
/// on the very value that the first place held.
pub open spec fn turned<T>(slots: Seq<T>, places: Seq<usize>, times: nat) -> Seq<T>
    recommends
        places.len() >= 1,
    decreases times,
{
    if times == 0 {
        slots
    } else {
        let earlier = turned(slots, places, (times - 1) as nat);
        let held = earlier[places[0] as int];
        rotated(earlier, places, held, held)
    }
}

proof fn lemma_relayed_length<T>(slots: Seq<T>, targets: Seq<usize>, value: T)
    requires
        in_bounds(targets, slots.len()),
    ensures
        relayed(slots, targets, value).len() == slots.len(),
    decreases targets.len(),
{
    if targets.len() > 0 {
        lemma_relayed_length(
            slots.update(targets[0] as int, value),
            targets.drop_first(),
            slots[targets[0] as int],
        );
    }
}

proof fn lemma_relayed_distinct<T>(slots: Seq<T>, targets: Seq<usize>, value: T)
    requires
        targets.no_duplicates(),
        in_bounds(targets, slots.len()),
    ensures
        forall|j: int|
            0 <= j < slots.len() && untouched(targets, j) ==> #[trigger] relayed(
                slots,
                targets,
                value,
            )[j] == slots[j],
        forall|i: int|
            0 <= i < targets.len() ==> relayed(slots, targets, value)[#[trigger] targets[i] as int]
                == if i == 0 {
                value
            } else {
                slots[targets[i - 1] as int]
            },
    decreases targets.len(),
{
    if targets.len() > 0 {
        let first = targets[0] as int;
        let stored = slots.update(first, value);
        let rest = targets.drop_first();
        let result = relayed(slots, targets, value);
        lemma_relayed_distinct(stored, rest, slots[first]);
        assert(result == relayed(stored, rest, slots[first]));
        assert(untouched(rest, first)) by {
            assert forall|i: int| 0 <= i < rest.len() implies rest[i] != first by {
                assert(rest[i] == targets[i + 1]);
            }
        }
        assert forall|j: int| 0 <= j < slots.len() && untouched(targets, j) implies result[j]
            == slots[j] by {
            assert(targets[0] != j);
            assert forall|i: int| 0 <= i < rest.len() implies rest[i] != j by {
                assert(rest[i] == targets[i + 1]);
            }
            assert(untouched(rest, j));
        }
        assert forall|i: int| 0 <= i < targets.len() implies result[targets[i] as int] == if i
            == 0 {
            value
        } else {
            slots[targets[i - 1] as int]
        } by {
            if i == 0 {
                assert(result[first] == stored[first]);
            } else {
                assert(rest[i - 1] == targets[i]);
                if i == 1 {
                } else {
                    assert(rest[i - 2] == targets[i - 1]);
                    assert(targets[i - 1] != targets[0]);
                }
            }
        }
    }
}

/// Where no place occurs twice, a rotation leaves every slot that is no
/// place as it was, the place after the first holds what the extraction
/// handed out, and every other place holds what the place before it held,
/// the first place counting as the one after the last. So where the
/// extraction hands out the value that the first place held, every place
/// holds what the place before it held.
pub proof fn law_rotation_shifts_by_one<T>(slots: Seq<T>, places: Seq<usize>, taken: T, left: T)
    requires
        places.len() >= 1,
        places.no_duplicates(),
        in_bounds(places, slots.len()),
    ensures
        rotated(slots, places, taken, left).len() == slots.len(),
        forall|j: int|
            0 <= j < slots.len() && untouched(places, j) ==> #[trigger] rotated(
                slots,
                places,
                taken,
                left,
            )[j] == slots[j],
        forall|i: int|
            0 <= i < places.len() ==> rotated(slots, places, taken, left)[#[trigger] places[i] as int]
                == if preceding(i, places.len() as int) == 0 {
                taken
            } else {
                slots[places[preceding(i, places.len() as int)] as int]
            },
        taken == slots[places[0] as int] ==> forall|i: int|
            0 <= i < places.len() ==> rotated(slots, places, taken, left)[#[trigger] places[i] as int]
                == slots[places[preceding(i, places.len() as int)] as int],
{
    let n = places.len() as int;
    let first = places[0] as int;
    let emptied = slots.update(first, left);
    let targets = visits(places).drop_first();
    let result = rotated(slots, places, taken, left);
    assert(targets.len() == n);
    assert forall|i: int| 0 <= i < n implies targets[i] == places[if i == n - 1 {
        0
    } else {
        i + 1
    }] by {
        assert(targets[i] == visits(places)[i + 1]);
    }
    assert(targets.no_duplicates());
    assert(in_bounds(targets, emptied.len()));
    lemma_relayed_length(emptied, targets, taken);
    lemma_relayed_distinct(emptied, targets, taken);
    assert forall|j: int| 0 <= j < slots.len() && untouched(places, j) implies result[j]
        == slots[j] by {
        assert(places[0] != j);
        assert(untouched(targets, j));
    }
    assert forall|i: int| 0 <= i < n implies result[places[i] as int] == if preceding(i, n) == 0 {
        taken
    } else {
        slots[places[preceding(i, n)] as int]
    } by {
        let at = preceding(i, n);
        assert(targets[at] == places[i]);
        if at != 0 {
            assert(targets[at - 1] == places[at]);
            assert(places[at] != places[0]);
        }
    }
}

/// Where no place occurs twice, what the extraction leaves in the first
/// place does not show in the result: the first place is stored to last.
pub proof fn law_left_is_overwritten<T>(
    slots: Seq<T>,
    places: Seq<usize>,
    taken: T,
    left: T,
    other: T,
)
    requires
        places.len() >= 1,
        places.no_duplicates(),
        in_bounds(places, slots.len()),
    ensures
        rotated(slots, places, taken, left) == rotated(slots, places, taken, other),
{
    let one = rotated(slots, places, taken, left);
    let two = rotated(slots, places, taken, other);
    law_rotation_shifts_by_one(slots, places, taken, left);
    law_rotation_shifts_by_one(slots, places, taken, other);
    assert forall|j: int| 0 <= j < slots.len() implies one[j] == two[j] by {
        if untouched(places, j) {
        } else {
            let i = choose|i: int| 0 <= i < places.len() && places[i] == j;
            assert(one[places[i] as int] == two[places[i] as int]);
        }
    }
    assert(one =~= two);
}

proof fn lemma_turned<T>(slots: Seq<T>, places: Seq<usize>, times: nat)
    requires
        places.len() >= 1,
        places.no_duplicates(),
        in_bounds(places, slots.len()),
    ensures
        turned(slots, places, times).len() == slots.len(),
        forall|j: int|
            0 <= j < slots.len() && untouched(places, j) ==> #[trigger] turned(
                slots,
                places,
                times,
            )[j] == slots[j],
        forall|i: int|
            0 <= i < places.len() ==> turned(slots, places, times)[#[trigger] places[i] as int]
                == slots[places[(i - times) % (places.len() as int)] as int],
    decreases times,
{
    let n = places.len() as int;
    if times == 0 {
        assert forall|i: int| 0 <= i < n implies turned(slots, places, times)[#[trigger] places[i] as int]
            == slots[places[(i - times) % n] as int] by {
            vstd::arithmetic::div_mod::lemma_small_mod(i as nat, n as nat);
        }
    } else {
        let earlier = turned(slots, places, (times - 1) as nat);
        let held = earlier[places[0] as int];
        lemma_turned(slots, places, (times - 1) as nat);
        law_rotation_shifts_by_one(earlier, places, held, held);
        assert forall|i: int| 0 <= i < n implies turned(slots, places, times)[places[i] as int]
            == slots[places[(i - times) % n] as int] by {
            let at = preceding(i, n);
            assert((at - (times - 1)) % n == (i - times) % n) by {
                if i == 0 {
                    vstd::arithmetic::div_mod::lemma_mod_add_multiples_vanish(i - times, n);
                }
            }
            assert(0 <= (i - times) % n < n) by {
                vstd::arithmetic::div_mod::lemma_mod_bound(i - times, n);
            }
        }
    }
}

/// Where no place occurs twice, as many rotations as there are places
/// restore every slot, provided that each rotation hands on the very value
/// that its first place held.
pub proof fn law_full_turn_restores<T>(slots: Seq<T>, places: Seq<usize>)
    requires
        places.len() >= 1,
        places.no_duplicates(),
        in_bounds(places, slots.len()),
    ensures
        turned(slots, places, places.len()) == slots,
{
    let n = places.len() as int;
    let result = turned(slots, places, places.len());
    lemma_turned(slots, places, places.len());
    assert forall|j: int| 0 <= j < slots.len() implies result[j] == slots[j] by {
        if untouched(places, j) {
        } else {
            let i = choose|i: int| 0 <= i < places.len() && places[i] == j;
            assert((i - n) % n == i) by {
                vstd::arithmetic::div_mod::lemma_mod_add_multiples_vanish(i - n, n);
                vstd::arithmetic::div_mod::lemma_small_mod(i as nat, n as nat);
            }
            assert(result[places[i] as int] == slots[places[i] as int]);
        }
    }
    assert(result =~= slots);
}

proof fn lemma_relayed_in_place<T>(slots: Seq<T>, targets: Seq<usize>, slot: int)
    requires
        0 <= slot < slots.len(),
        forall|i: int| 0 <= i < targets.len() ==> targets[i] == slot,
    ensures
        relayed(slots, targets, slots[slot]) == slots,
    decreases targets.len(),
{
    if targets.len() > 0 {
        assert(slots.update(slot, slots[slot]) =~= slots);
        lemma_relayed_in_place(slots, targets.drop_first(), slot);
    }
}

/// Where every place denotes the same slot, and the extraction hands out
/// the value that the slot holds and leaves it in the slot, a rotation
/// changes nothing.
pub proof fn law_aliased_rotation_changes_nothing<T>(slots: Seq<T>, places: Seq<usize>)
    requires
        places.len() >= 1,
        in_bounds(places, slots.len()),
        forall|i: int| 0 <= i < places.len() ==> #[trigger] places[i] == places[0],
    ensures
        rotated(slots, places, slots[places[0] as int], slots[places[0] as int]) == slots,
{
    let slot = places[0] as int;
    assert(slots.update(slot, slots[slot]) =~= slots);
    lemma_relayed_in_place(slots, visits(places).drop_first(), slot);
}

/// A rotation visits one place more than it was given: the places in the
/// order given, and the first place again at the end.
pub proof fn law_first_place_is_visited_twice(places: Seq<usize>)
    requires
        places.len() >= 1,
    ensures
        visits(places).len() == places.len() + 1,
        forall|i: int| 0 <= i < places.len() ==> visits(places)[i] == places[i],
        visits(places)[places.len() as int] == places[0],
{
}

} // verus!
