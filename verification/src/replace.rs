//! Storing into a location: put a new value in, get the previous one back.

use crate::cells::{cell_replace, ref_cell_try_borrow_mut, ref_mut_target};
use core::cell::{Cell, RefCell, RefMut};
use vstd::prelude::*;

verus! {

/// Takes out the value from a reference, leaving another value you supplied.
///
/// This generalizes `core::mem::replace` to the three kinds of location
/// that this crate knows: `&mut T`, `&Cell<T>` and `&RefCell<T>`.
///
/// A store into `&mut T` or `&Cell<T>` cannot fail. A store into
/// `&RefCell<T>` fails where an access to the cell is open: that is the
/// reentrant-access fault. The library does not unwind on it. It hands the
/// value back, and the caller, for whom the fault is fatal, stops there:
/// what earlier steps of an exchange have stored stays stored.
pub trait Replace<T> {
    /// What a store hands back: the previous value for `&mut T` and
    /// `&Cell<T>`; for `&RefCell<T>` the previous value in `Ok`, or the
    /// fault in `Err`.
    type Output;

    /// The value that a store handed back because it failed, if it failed.
    spec fn refused(outcome: Self::Output) -> Option<T>;

    /// Stores `value` in the location and returns what the location held.
    /// A store that fails stores nothing and hands `value` back as it came.
    fn replace(self, value: T) -> (outcome: Self::Output)
        ensures
            Self::refused(outcome) matches Some(back) ==> back == value,
    ;
}

impl<'a, T> Replace<T> for &'a mut T {
    type Output = T;

    /// A store into an exclusive slot never fails.
    open spec fn refused(outcome: T) -> Option<T> {
        None
    }

    /// Stores `value` in the exclusive slot.
    fn replace(self, value: T) -> (previous: T)
        ensures
            previous == *old(self),
            *final(self) == value,
    {
        let mut relay = value;
        core::mem::swap(self, &mut relay);
        relay
    }
}

impl<'a, T> Replace<T> for &'a Cell<T> {
    type Output = T;

    /// A store into a shared cell never fails.
    open spec fn refused(outcome: T) -> Option<T> {
        None
    }

    /// Stores `value` in the shared cell. The cell's contents are not
    /// visible to the verifier, so nothing is stated of the result.
    fn replace(self, value: T) -> (previous: T) {
        cell_replace(self, value)
    }
}

impl<'a, T> Replace<T> for &'a RefCell<T> {
    type Output = Result<T, T>;

    /// A store into a checked cell that fails hands the value back in `Err`.
    open spec fn refused(outcome: Result<T, T>) -> Option<T> {
        match outcome {
            Ok(_) => None,
            Err(back) => Some(back),
        }
    }

    /// Opens an exclusive access to the checked cell and stores `value`
    /// through it: `Ok` holds what the cell held.
    ///
    /// Where another access to the cell is open, none is opened and nothing
    /// is stored: `Err` hands `value` back as it came.
    ///
    /// Whether an access is open, and what the cell holds, are not visible to
    /// the verifier, so nothing is stated of which of the two comes back, nor
    /// of the value in `Ok`.
    fn replace(self, value: T) -> Result<T, T> {
        store_through(ref_cell_try_borrow_mut(self), value)
    }
}

/// Stores `value` through an exclusive access to a checked cell, where one
/// was opened, and closes the access: `Ok` holds what the cell held. Where
/// none was opened, nothing is stored and `Err` hands `value` back.
pub fn store_through<'b, T>(access: Option<RefMut<'b, T>>, value: T) -> (outcome: Result<T, T>)
    ensures
        access is Some ==> outcome is Ok,
        access is None ==> outcome == Err::<T, T>(value),
{
    match access {
        Some(mut opened) => Ok(Replace::replace(ref_mut_target(&mut opened), value)),
        None => Err(value),
    }
}

} // verus!
