//! Prioritized extraction: taking the value out of one location.
//!
//! Which strategy extracts a value is decided by the value's type, in strict
//! priority order:
//!
//! 1. a `Copy` type is copied out, and the location is not written;
//! 2. otherwise a `Default` type is exchanged for its default value;
//! 3. otherwise a `Clone` type is cloned out, and the location is not written.
//!
//! The order is encoded in the three helper types. Method lookup on a
//! [`TakeHelper`] finds `take` on the helper itself where the first strategy
//! applies, else through one dereference on [`TakeHelper2`], else through two
//! on [`TakeHelper3`]. Behind a `&Cell<T>` only the first two strategies are
//! offered: a type that is `Clone` alone cannot be taken out of such a cell,
//! and the attempt does not compile.
//!
//! An extraction from a `&mut T` or a `&Cell<T>` cannot fail and yields the
//! value. One from a `&RefCell<T>` yields `Some` of the value, or `None`
//! where a conflicting access to the cell is open; nothing is read or
//! written then.

use crate::cells::{
    cell_get, cell_take, ref_cell_try_borrow, ref_cell_try_borrow_mut, ref_mut_target, ref_target,
};
use core::cell::{Cell, Ref, RefCell, RefMut};
use core::ops::{Deref, DerefMut};
use vstd::prelude::*;

verus! {

/// Entry point of the extraction: holds a location and offers the strategy
/// of highest priority.
pub struct TakeHelper<T>(TakeHelper2<T>);

/// Second link of the chain: offers the strategy of middle priority.
pub struct TakeHelper2<T>(TakeHelper3<T>);

/// Last link of the chain: offers the strategy of lowest priority.
pub struct TakeHelper3<T>(T);

impl<T> TakeHelper3<T> {
    /// The location that the helper holds.
    pub closed spec fn place(self) -> T {
        self.0
    }
}

impl<T> TakeHelper2<T> {
    /// The location that the helper holds.
    pub closed spec fn place(self) -> T {
        self.0.0
    }
}

impl<T> TakeHelper<T> {
    /// The location that the helper holds.
    pub closed spec fn place(self) -> T {
        self.0.0.0
    }

    /// Wraps a location for extraction.
    pub fn new(inner: T) -> (helper: Self)
        ensures
            helper.place() == inner,
    {
        TakeHelper(TakeHelper2(TakeHelper3(inner)))
    }
}

/// Once a helper is no longer used, neither is the location that it holds.
///
/// Verified code outside this module that hands a `&mut` to a helper brings
/// [`group_helper_resolves`] into scope to learn, when the helper is gone,
/// that the borrowed slot holds what the helper's last `take` left there.
pub broadcast proof fn lemma_helper_resolves<T>(helper: TakeHelper<T>)
    ensures
        #[trigger] has_resolved(helper) ==> has_resolved(helper.place()),
{
}

/// Once a helper is no longer used, neither is the location that it holds.
pub broadcast proof fn lemma_helper2_resolves<T>(helper: TakeHelper2<T>)
    ensures
        #[trigger] has_resolved(helper) ==> has_resolved(helper.place()),
{
}

/// Once a helper is no longer used, neither is the location that it holds.
pub broadcast proof fn lemma_helper3_resolves<T>(helper: TakeHelper3<T>)
    ensures
        #[trigger] has_resolved(helper) ==> has_resolved(helper.place()),
{
}

/// The three facts on helpers that are no longer used.
pub broadcast group group_helper_resolves {
    lemma_helper_resolves,
    lemma_helper2_resolves,
    lemma_helper3_resolves,
}

impl<'a, T> TakeHelper<&'a mut T> where T: Copy {
    /// Copies the value out of the exclusive slot. The slot is not written.
    ///
    /// The clauses say, in turn: what is handed out; what the slot holds
    /// when `take` returns; and that the helper goes on to hold the same
    /// slot, so that what the slot holds in the end is what its owner sees.
    pub fn take(&mut self) -> (value: T)
        ensures
            value == *old(self).place(),
            *final(self).place() == *old(self).place(),
            *final(final(self).place()) == *final(old(self).place()),
    {
        *self.0.0.0
    }
}

impl<'a, T> TakeHelper2<&'a mut T> where T: Default {
    /// Moves the value out of the exclusive slot and leaves a default value
    /// of `T` there.
    pub fn take(&mut self) -> (value: T)
        ensures
            value == *old(self).place(),
            T::default.ensures((), *final(self).place()),
            *final(final(self).place()) == *final(old(self).place()),
    {
        let mut relay = T::default();
        core::mem::swap(self.0.0, &mut relay);
        relay
    }
}

impl<'a, T> TakeHelper3<&'a mut T> where T: Clone {
    /// Clones the value out of the exclusive slot. The slot is not written.
    pub fn take(&mut self) -> (value: T)
        ensures
            T::clone.ensures((&*old(self).place(),), value),
            *final(self).place() == *old(self).place(),
            *final(final(self).place()) == *final(old(self).place()),
    {
        self.0.clone()
    }
}

impl<'a, T> TakeHelper<&'a Cell<T>> where T: Copy {
    /// Copies the value out of the shared cell. The cell is not written.
    /// The cell's contents are not visible to the verifier, so nothing is
    /// stated of the result.
    pub fn take(&mut self) -> (value: T)
        ensures
            final(self).place() == old(self).place(),
    {
        cell_get(self.0.0.0)
    }
}

impl<'a, T> TakeHelper<&'a RefCell<T>> where T: Copy {
    /// Opens a shared access to the checked cell and copies the value out:
    /// `Some` holds the copy. The cell is not written.
    ///
    /// Where an exclusive access to the cell is open, none is opened: that
    /// is the reentrant-access fault, and the result is `None`.
    ///
    /// Whether an access is open, and what the cell holds, are not visible to
    /// the verifier, so nothing is stated of the result.
    pub fn take(&mut self) -> (value: Option<T>)
        ensures
            final(self).place() == old(self).place(),
    {
        copy_through(ref_cell_try_borrow(self.0.0.0))
    }
}

impl<'a, T> TakeHelper2<&'a Cell<T>> where T: Default {
    /// Moves the value out of the shared cell and leaves a default value of
    /// `T` there. The cell's contents are not visible to the verifier, so
    /// nothing is stated of the result.
    pub fn take(&mut self) -> (value: T)
        ensures
            final(self).place() == old(self).place(),
    {
        cell_take(self.0.0)
    }
}

impl<'a, T> TakeHelper2<&'a RefCell<T>> where T: Default {
    /// Opens an exclusive access to the checked cell and takes the value out
    /// of the slot that the access reaches, as [`TakeHelper2`] does for an
    /// exclusive slot: `Some` holds the value, and a default value of `T` is
    /// left in the cell.
    ///
    /// Where another access to the cell is open, none is opened and the cell
    /// is not written: that is the reentrant-access fault, and the result is
    /// `None`.
    ///
    /// Whether an access is open, and what the cell holds, are not visible to
    /// the verifier, so nothing is stated of the result.
    pub fn take(&mut self) -> (value: Option<T>)
        ensures
            final(self).place() == old(self).place(),
    {
        default_through(ref_cell_try_borrow_mut(self.0.0))
    }
}

impl<'a, T> TakeHelper3<&'a RefCell<T>> where T: Clone {
    /// Opens a shared access to the checked cell and clones the value out:
    /// `Some` holds the clone. The cell is not written.
    ///
    /// Where an exclusive access to the cell is open, none is opened: that
    /// is the reentrant-access fault, and the result is `None`.
    ///
    /// Whether an access is open, and what the cell holds, are not visible to
    /// the verifier: of a value in `Some` it is stated that `T::clone` made
    /// it, not from which value.
    pub fn take(&mut self) -> (value: Option<T>)
        ensures
            final(self).place() == old(self).place(),
            value is Some ==> exists|held: T| #[trigger] T::clone.ensures((&held,), value->0),
    {
        clone_through(ref_cell_try_borrow(self.0))
    }
}

/// Copies the value out through a shared access to a checked cell, where
/// one was opened, and closes the access. Where none was opened, there is
/// no value.
pub fn copy_through<'b, T: Copy>(access: Option<Ref<'b, T>>) -> (value: Option<T>)
    ensures
        value is Some <==> access is Some,
{
    match access {
        Some(opened) => Some(*ref_target(&opened)),
        None => None,
    }
}

/// Takes the value out through an exclusive access to a checked cell, where
/// one was opened, as [`TakeHelper2`] does for an exclusive slot, and closes
/// the access. Where none was opened, there is no value and nothing is
/// written.
pub fn default_through<'b, T: Default>(access: Option<RefMut<'b, T>>) -> (value: Option<T>)
    ensures
        value is Some <==> access is Some,
{
    match access {
        Some(mut opened) => Some(TakeHelper::new(ref_mut_target(&mut opened)).take()),
        None => None,
    }
}

/// Clones the value out through a shared access to a checked cell, where
/// one was opened, and closes the access. Where none was opened, there is
/// no value and no clone is made.
pub fn clone_through<'b, T: Clone>(access: Option<Ref<'b, T>>) -> (value: Option<T>)
    ensures
        value is Some <==> access is Some,
        value is Some ==> exists|held: T| #[trigger] T::clone.ensures((&held,), value->0),
{
    if let Some(opened) = access {
        let held = ref_target(&opened);
        let value = Some(held.clone());
        assert(T::clone.ensures((&*held,), value->0));
        value
    } else {
        None
    }
}

impl<T> Deref for TakeHelper<T> {
    type Target = TakeHelper2<T>;

    /// The next link of the chain, holding the same location.
    fn deref(&self) -> (next: &TakeHelper2<T>)
        ensures
            next.place() == self.place(),
    {
        &self.0
    }
}

impl<T> DerefMut for TakeHelper<T> {
    /// The next link of the chain, holding the same location; what is done
    /// through it is done to this helper's location.
    fn deref_mut(&mut self) -> (next: &mut TakeHelper2<T>)
        ensures
            next.place() == old(self).place(),
            final(self).place() == final(next).place(),
    {
        &mut self.0
    }
}

impl<T> Deref for TakeHelper2<T> {
    type Target = TakeHelper3<T>;

    /// The next link of the chain, holding the same location.
    fn deref(&self) -> (next: &TakeHelper3<T>)
        ensures
            next.place() == self.place(),
    {
        &self.0
    }
}

impl<T> DerefMut for TakeHelper2<T> {
    /// The next link of the chain, holding the same location; what is done
    /// through it is done to this helper's location.
    fn deref_mut(&mut self) -> (next: &mut TakeHelper3<T>)
        ensures
            next.place() == old(self).place(),
            final(self).place() == final(next).place(),
    {
        &mut self.0
    }
}

/// A capability tier: one way of taking the value out of an exclusive slot.
///
/// A tier is a property of the value's type, fixed when the program is
/// built. The three tiers of this crate are [`BitDuplicable`],
/// [`ZeroConstructible`] and [`DeepDuplicable`].
pub trait Tier<T> {
    /// Whether extraction from a slot that holds `held` may hand out `taken`.
    spec fn yields(held: T, taken: T) -> bool;

    /// Whether extraction from a slot that holds `held` may leave `left` in
    /// the slot.
    spec fn leaves(held: T, left: T) -> bool;

    /// Takes the value out of `place`.
    fn extract(place: &mut T) -> (taken: T)
        ensures
            Self::yields(*old(place), taken),
            Self::leaves(*old(place), *final(place)),
    ;
}

/// The tier of `Copy` types: the value is copied out and stays in place.
pub struct BitDuplicable;

/// The tier of `Default` types: the value is moved out and a default value
/// takes its place.
pub struct ZeroConstructible;

/// The tier of `Clone` types: a clone of the value is handed out and the
/// value stays in place.
pub struct DeepDuplicable;

impl<T: Copy> Tier<T> for BitDuplicable {
    open spec fn yields(held: T, taken: T) -> bool {
        taken == held
    }

    open spec fn leaves(held: T, left: T) -> bool {
        left == held
    }

    fn extract(place: &mut T) -> (taken: T) {
        TakeHelper::new(place).take()
    }
}

impl<T: Default> Tier<T> for ZeroConstructible {
    open spec fn yields(held: T, taken: T) -> bool {
        taken == held
    }

    open spec fn leaves(held: T, left: T) -> bool {
        T::default.ensures((), left)
    }

    fn extract(place: &mut T) -> (taken: T) {
        TakeHelper::new(place).take()
    }
}

impl<T: Clone> Tier<T> for DeepDuplicable {
    open spec fn yields(held: T, taken: T) -> bool {
        T::clone.ensures((&held,), taken)
    }

    open spec fn leaves(held: T, left: T) -> bool {
        left == held
    }

    fn extract(place: &mut T) -> (taken: T) {
        TakeHelper::new(place).take()
    }
}

/// Extraction as the helper chain selects it for a type that is both `Copy`
/// and `Default`: the value is copied out and the slot keeps it. The
/// bit-duplicable strategy has priority over the zero-constructible one.
pub fn take_copy_first<T: Copy + Default>(place: &mut T) -> (value: T)
    ensures
        value == *old(place),
        *final(place) == *old(place),
{
    TakeHelper::new(place).take()
}

/// Extraction as the helper chain selects it for a type that is both
/// `Default` and `Clone`, and not known to be `Copy`: the value is moved out
/// and a default value is left. The zero-constructible strategy has priority
/// over the deep-duplicable one.
pub fn take_default_first<T: Default + Clone>(place: &mut T) -> (value: T)
    ensures
        value == *old(place),
        T::default.ensures((), *final(place)),
{
    TakeHelper::new(place).take()
}

} // verus!
