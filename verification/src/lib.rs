//! Sentinel-based swapping of values between storage locations that may
//! overlap.
//!
//! `std::mem::swap` needs two mutable borrows that are known to be disjoint.
//! This crate exchanges values one location at a time instead: a value is
//! taken out of the first location, handed from location to location, and
//! what the last location held is put back into the first. At no point are
//! two locations borrowed at once, so the locations may denote the same
//! place.
//!
//! - [`Replace`] stores a value in a location and hands back what was there.
//! - [`TakeHelper`] takes the value out of a location, by the cheapest
//!   strategy that the value's type supports.
//! - [`rotate`] and [`swap`] run the whole exchange on slots of one slice.
//! - [`rotate_with`] does so for places that are computed when they are
//!   visited.
//!
//! A location is a `&mut T`, a `&Cell<T>` or a `&RefCell<T>`. Only the last
//! can refuse an access, which it does while a conflicting access to the
//! same cell is open. No function of this crate unwinds on that fault: it is
//! handed to the caller as a value, `Err` from a store and `None` from an
//! extraction, and nothing is written. The caller is to treat it as fatal
//! and to stop the exchange where it stands, without undoing earlier steps.

pub mod cells;
pub mod locate;
pub mod replace;
pub mod rotate;
pub mod swap;
pub mod take;

pub use crate::locate::{rotate_with, Locate, Recorded};
pub use crate::replace::Replace;
pub use crate::rotate::{rotate, visit_order};
pub use crate::swap::swap;
pub use crate::take::{
    BitDuplicable, DeepDuplicable, TakeHelper, TakeHelper2, TakeHelper3, Tier, ZeroConstructible,
};
