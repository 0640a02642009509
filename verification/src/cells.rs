//! The shared cells of `core::cell`, as far as this crate uses them.
//!
//! To the verifier a cell is known by its identity only: what it holds can
//! change behind a shared reference, so no specification here speaks of a
//! cell's contents, nor of the accesses that are open to it. Each item below
//! states what is assumed of one function of `core::cell`; none of it is
//! proved. None of these functions unwinds.

use core::cell::{Cell, Ref, RefCell, RefMut};
use core::ops::{Deref, DerefMut};
use vstd::prelude::*;

verus! {

/// `core::cell::Cell`, a shared single-threaded cell. Opaque to the verifier.
#[verifier::external_type_specification]
#[verifier::external_body]
#[verifier::reject_recursive_types(T)]
pub struct ExCell<T: ?Sized>(Cell<T>);

/// `core::cell::RefCell`, a shared cell whose accesses are checked at run
/// time. Opaque to the verifier.
#[verifier::external_type_specification]
#[verifier::external_body]
#[verifier::reject_recursive_types(T)]
pub struct ExRefCell<T: ?Sized>(RefCell<T>);

/// `core::cell::Ref`, an open shared access to a `RefCell`. Opaque to the
/// verifier.
#[verifier::external_type_specification]
#[verifier::external_body]
#[verifier::reject_recursive_types(T)]
pub struct ExRef<'b, T: ?Sized>(Ref<'b, T>);

/// `core::cell::RefMut`, an open exclusive access to a `RefCell`. Opaque to
/// the verifier.
#[verifier::external_type_specification]
#[verifier::external_body]
#[verifier::reject_recursive_types(T)]
pub struct ExRefMut<'b, T: ?Sized + 'b>(RefMut<'b, T>);

/// `Cell::replace`: puts `value` into the cell and returns what the cell
/// held. Nothing is claimed of the returned value.
#[verifier::external_body]
pub(crate) fn cell_replace<T>(cell: &Cell<T>, value: T) -> (previous: T) {
    cell.replace(value)
}

/// `Cell::get`: returns a copy of what the cell holds. Nothing is claimed of
/// the returned value.
#[verifier::external_body]
pub(crate) fn cell_get<T: Copy>(cell: &Cell<T>) -> (held: T) {
    cell.get()
}

/// `Cell::take`: puts `T::default()` into the cell and returns what the cell
/// held. Nothing is claimed of the returned value.
#[verifier::external_body]
pub(crate) fn cell_take<T: Default>(cell: &Cell<T>) -> (previous: T) {
    cell.take()
}

/// `RefCell::try_borrow`: opens a shared access to the cell, or opens none
/// where an exclusive access to the same cell is open. It never unwinds. The
/// error of `core::cell` carries no data and becomes `None`. Which of the two
/// comes back is not a property of any value that the verifier sees, so
/// nothing is claimed of the result.
#[verifier::external_body]
pub(crate) fn ref_cell_try_borrow<'b, T>(cell: &'b RefCell<T>) -> (access: Option<Ref<'b, T>>) {
    cell.try_borrow().ok()
}

/// `RefCell::try_borrow_mut`: opens an exclusive access to the cell, or
/// opens none where any access to the same cell is open. It never unwinds.
/// The error of `core::cell` carries no data and becomes `None`. Which of
/// the two comes back is not a property of any value that the verifier sees,
/// so nothing is claimed of the result.
#[verifier::external_body]
pub(crate) fn ref_cell_try_borrow_mut<'b, T>(cell: &'b RefCell<T>) -> (access: Option<
    RefMut<'b, T>,
>) {
    cell.try_borrow_mut().ok()
}

/// `Ref::deref`: the value that an open shared access reaches. Nothing is
/// claimed of it.
#[verifier::external_body]
pub(crate) fn ref_target<'a, 'b, T>(access: &'a Ref<'b, T>) -> (held: &'a T) {
    Deref::deref(access)
}

/// `RefMut::deref_mut`: the slot that an open exclusive access reaches.
/// Nothing is claimed of what the slot holds.
#[verifier::external_body]
pub(crate) fn ref_mut_target<'a, 'b, T>(access: &'a mut RefMut<'b, T>) -> (slot: &'a mut T) {
    DerefMut::deref_mut(access)
}

} // verus!
