//! Location expressions: places that are computed when they are visited.
//!
//! A rotation may be given its places as expressions, which it evaluates one
//! at a time and only when it is about to access the place: the first
//! expression, then each of the others in the order given, then the first
//! expression a second time. An evaluation may do more than yield a place,
//! so this order can be observed from outside.

use crate::replace::Replace;
use crate::rotate::{in_bounds, relayed, rotated, visits};
use crate::take::Tier;
use vstd::prelude::*;

verus! {

/// A sequence of location expressions, each denoting a slot of a slice.
pub trait Locate {
    /// How many expressions there are.
    spec fn count(&self) -> nat;

    /// The slot that the expression at `position` denotes.
    spec fn denotes(&self, position: int) -> usize;

    /// The positions of the expressions evaluated so far, oldest first.
    spec fn evaluated(&self) -> Seq<usize>;

    /// How many expressions there are.
    fn len(&self) -> (n: usize)
        ensures
            n == self.count(),
    ;

    /// Evaluates the expression at `position`: yields the slot that it
    /// denotes, and takes note of the evaluation. What the expressions
    /// denote does not change.
    fn locate(&mut self, position: usize) -> (slot: usize)
        requires
            position < old(self).count(),
        ensures
            slot == old(self).denotes(position as int),
            final(self).evaluated() == old(self).evaluated().push(position),
            final(self).count() == old(self).count(),
            forall|i: int| final(self).denotes(i) == old(self).denotes(i),
    ;
}

/// The slots that the expressions denote, in the order of the expressions.
pub open spec fn denoted<L: Locate>(places: L) -> Seq<usize> {
    Seq::new(places.count(), |i: int| places.denotes(i))
}

/// The positions `0`, `1`, and so on, below `n`.
pub open spec fn positions(n: nat) -> Seq<usize> {
    Seq::new(n, |i: int| i as usize)
}

/// Location expressions that keep a log of their evaluations.
pub struct Recorded {
    places: Vec<usize>,
    log: Vec<usize>,
}

impl Recorded {
    /// The slots that the expressions denote.
    pub closed spec fn places(&self) -> Seq<usize> {
        self.places@
    }

    /// The log: the positions of the expressions evaluated so far.
    pub closed spec fn log(&self) -> Seq<usize> {
        self.log@
    }

    /// Expressions that denote `places`, none of which was evaluated yet.
    pub fn new(places: Vec<usize>) -> (recorded: Self)
        ensures
            recorded.places() == places@,
            recorded.log() == Seq::<usize>::empty(),
    {
        Recorded { places, log: Vec::new() }
    }

    /// Hands out the log.
    pub fn into_log(self) -> (log: Vec<usize>)
        ensures
            log@ == self.log(),
    {
        self.log
    }
}

impl Locate for Recorded {
    open spec fn count(&self) -> nat {
        self.places().len()
    }

    open spec fn denotes(&self, position: int) -> usize {
        self.places()[position]
    }

    open spec fn evaluated(&self) -> Seq<usize> {
        self.log()
    }

    fn len(&self) -> (n: usize) {
        self.places.len()
    }

    fn locate(&mut self, position: usize) -> (slot: usize) {
        self.log.push(position);
        self.places[position]
    }
}

/// Rotates the values of the slots that `places` denote, evaluating each
/// expression only when its place is visited.
///
/// The expressions are evaluated in the order in which [`visits`] lists
/// their positions: the first, each of the others in the order given, and
/// the first once more. None is skipped and none is evaluated out of turn.
/// What happens to the slots is what [`rotate`](crate::rotate::rotate) does
/// for the places that the expressions denote.
pub fn rotate_with<X: Tier<T>, T, L: Locate>(slots: &mut [T], places: &mut L)
    requires
        old(places).count() >= 1,
        in_bounds(denoted(*old(places)), old(slots)@.len()),
    ensures
        final(places).evaluated() == old(places).evaluated() + visits(
            positions(old(places).count()),
        ),
        final(places).count() == old(places).count(),
        forall|i: int| final(places).denotes(i) == old(places).denotes(i),
        final(slots)@.len() == old(slots)@.len(),
        exists|taken: T, left: T|
            #![trigger rotated(old(slots)@, denoted(*old(places)), taken, left)]
            X::yields(old(slots)@[old(places).denotes(0) as int], taken) && X::leaves(
                old(slots)@[old(places).denotes(0) as int],
                left,
            ) && final(slots)@ == rotated(old(slots)@, denoted(*old(places)), taken, left),
{
    let n = places.len();
    let ghost named = denoted(*places);
    let ghost order = visits(positions(n as nat));
    let ghost targets = visits(named).drop_first();
    let ghost before = slots@;
    let ghost log = places.evaluated();
    let ghost start = *places;
    proof {
        assert(named[0] == places.denotes(0));
    }
    let first = places.locate(0);
    let mut relay = X::extract(&mut slots[first]);
    let ghost taken = relay;
    let ghost emptied = slots@;
    proof {
        assert(targets.subrange(0, targets.len() as int) == targets);
        assert(emptied == before.update(first as int, emptied[first as int]));
        assert(order.subrange(0, 1) == seq![0usize]);
        assert(log.push(0usize) == log + order.subrange(0, 1));
    }
    let mut k: usize = 1;
    while k < n
        invariant
            1 <= k <= n,
            n == start.count(),
            places.count() == start.count(),
            forall|i: int| places.denotes(i) == start.denotes(i),
            named == denoted(start),
            order == visits(positions(n as nat)),
            targets == visits(named).drop_first(),
            places.evaluated() == log + order.subrange(0, k as int),
            slots@.len() == emptied.len(),
            in_bounds(named, slots@.len()),
            relayed(slots@, targets.subrange(k - 1, targets.len() as int), relay) == relayed(
                emptied,
                targets,
                taken,
            ),
        decreases n - k,
    {
        let ghost rest = targets.subrange(k - 1, targets.len() as int);
        let ghost seen = places.evaluated();
        proof {
            assert(named[k as int] == start.denotes(k as int));
        }
        let place = places.locate(k);
        relay = Replace::replace(&mut slots[place], relay);
        proof {
            assert(rest[0] == named[k as int]);
            assert(rest.drop_first() == targets.subrange(k as int, targets.len() as int));
            assert(order[k as int] == k);
            assert(seen.push(k) == log + order.subrange(0, k + 1));
        }
        k += 1;
    }
    let ghost rest = targets.subrange(n - 1, targets.len() as int);
    let ghost seen = places.evaluated();
    let ghost held = slots@;
    let ghost handed = relay;
    let last = places.locate(0);
    let _ = Replace::replace(&mut slots[last], relay);
    proof {
        assert(last == named[0]);
        assert(rest[0] == named[0]);
        assert(rest.drop_first() == Seq::<usize>::empty());
        assert(relayed(held, rest, handed) == relayed(
            held.update(last as int, handed),
            rest.drop_first(),
            held[last as int],
        ));
        assert(order[n as int] == 0);
        assert(order.subrange(0, n + 1) == order);
        assert(seen.push(0usize) == log + order);
        assert(rotated(before, named, taken, emptied[first as int]) == slots@);
    }
}

/// The positions in the order in which a rotation evaluates its `n`
/// expressions: every position in turn, and the first again at the end, so
/// that the first expression is evaluated twice and every other one once.
pub proof fn law_expressions_are_evaluated_in_turn(n: nat)
    requires
        1 <= n <= usize::MAX,
    ensures
        visits(positions(n)).len() == n + 1,
        forall|i: int| 0 <= i < n ==> visits(positions(n))[i] == i,
        visits(positions(n))[n as int] == 0,
{
}

} // verus!
