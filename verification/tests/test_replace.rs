use std::cell::{Cell, RefCell};

use omniswap::replace::store_through;
use omniswap::Replace;

#[test]
fn test_replace_mut() {
    let mut place = 42;
    let taken = Replace::replace(&mut place, 84);
    assert_eq!(taken, 42);
    assert_eq!(place, 84);
}

#[test]
fn test_replace_cell() {
    let place = Cell::new(42);
    let taken = Replace::replace(&place, 84);
    assert_eq!(taken, 42);
    let place = place.into_inner();
    assert_eq!(place, 84);
}

#[test]
fn test_replace_ref_cell() {
    let place = RefCell::new(42);
    let taken = Replace::replace(&place, 84);
    assert_eq!(taken, Ok(42));
    let place = place.into_inner();
    assert_eq!(place, 84);
}

#[test]
fn store_into_a_cell_with_an_open_access_is_refused() {
    let place = RefCell::new(42);
    {
        let _exclusive = place.borrow_mut();
        assert_eq!(Replace::replace(&place, 84), Err(84));
    }
    {
        let _shared = place.borrow();
        assert_eq!(Replace::replace(&place, 84), Err(84));
    }
    assert_eq!(place.into_inner(), 42);
}

#[test]
fn store_succeeds_again_once_the_access_is_closed() {
    let place = RefCell::new(42);
    {
        let _exclusive = place.borrow_mut();
        assert_eq!(Replace::replace(&place, 84), Err(84));
    }
    assert_eq!(Replace::replace(&place, 84), Ok(42));
    assert_eq!(Replace::replace(&place, 7), Ok(84));
    assert_eq!(place.into_inner(), 7);
}

#[test]
fn store_through_an_access_that_was_opened() {
    let place = RefCell::new(42);
    assert_eq!(store_through(place.try_borrow_mut().ok(), 84), Ok(42));
    // The access was closed again.
    assert_eq!(store_through(place.try_borrow_mut().ok(), 7), Ok(84));
    assert_eq!(place.into_inner(), 7);
}

#[test]
fn store_through_no_access_hands_the_value_back() {
    assert_eq!(store_through(None, 84), Err(84));

    let place = RefCell::new(vec![1]);
    let shared = place.borrow();
    assert_eq!(store_through(place.try_borrow_mut().ok(), vec![2]), Err(vec![2]));
    assert_eq!(*shared, vec![1]);
}
