use std::cell::{Cell, RefCell};

use omniswap::{
    rotate, rotate_with, swap, visit_order, BitDuplicable, DeepDuplicable, Recorded, Replace,
    TakeHelper, ZeroConstructible,
};

/// Counts how often a value was cloned; neither `Copy` nor `Default`.
#[derive(Debug, PartialEq, Eq)]
struct Tallied {
    value: i32,
    clones: u32,
}

impl Tallied {
    fn new(value: i32) -> Self {
        Tallied { value, clones: 0 }
    }
}

impl Clone for Tallied {
    fn clone(&self) -> Self {
        Tallied { value: self.value, clones: self.clones + 1 }
    }
}

#[test]
fn rotate_moves_each_value_to_the_next_place() {
    let mut slots = [10, 20, 30, 40, 50];
    rotate::<BitDuplicable, i32>(&mut slots, &[4, 1, 3]);
    assert_eq!(slots, [10, 50, 30, 20, 40]);
}

#[test]
fn rotate_through_one_place_changes_nothing() {
    let mut slots = [10, 20, 30];
    rotate::<BitDuplicable, i32>(&mut slots, &[1]);
    assert_eq!(slots, [10, 20, 30]);

    let mut slots = vec![vec![1], vec![2, 3]];
    rotate::<ZeroConstructible, Vec<i32>>(&mut slots, &[1]);
    assert_eq!(slots, vec![vec![1], vec![2, 3]]);
}

#[test]
fn rotate_as_often_as_there_are_places_restores() {
    let mut slots = [10, 20, 30, 40, 50];
    let places = [3, 0, 4, 1];
    rotate::<BitDuplicable, i32>(&mut slots, &places);
    assert_eq!(slots, [40, 50, 30, 20, 10]);
    rotate::<BitDuplicable, i32>(&mut slots, &places);
    rotate::<BitDuplicable, i32>(&mut slots, &places);
    assert_ne!(slots, [10, 20, 30, 40, 50]);
    rotate::<BitDuplicable, i32>(&mut slots, &places);
    assert_eq!(slots, [10, 20, 30, 40, 50]);
}

#[test]
fn rotate_of_default_tier_restores_after_a_full_turn() {
    let mut slots = vec![String::from("a"), String::from("b"), String::from("c")];
    let places = [2, 0, 1];
    rotate::<ZeroConstructible, String>(&mut slots, &places);
    assert_eq!(slots, ["c", "a", "b"]);
    rotate::<ZeroConstructible, String>(&mut slots, &places);
    rotate::<ZeroConstructible, String>(&mut slots, &places);
    assert_eq!(slots, ["a", "b", "c"]);
}

#[test]
fn rotate_through_one_slot_named_three_times_changes_nothing() {
    let mut slots = [10, 20, 30];
    rotate::<BitDuplicable, i32>(&mut slots, &[2, 2, 2]);
    assert_eq!(slots, [10, 20, 30]);
}

#[test]
fn rotate_stores_in_the_order_of_its_places() {
    // The first slot is named again before the end: it receives what the
    // second slot held, hands it on, and is stored to once more at the end.
    let mut slots = [1, 2];
    rotate::<BitDuplicable, i32>(&mut slots, &[0, 1, 0]);
    assert_eq!(slots, [1, 1]);

    let mut slots = [1, 2, 3];
    rotate::<BitDuplicable, i32>(&mut slots, &[0, 1, 1, 2]);
    assert_eq!(slots, [3, 2, 1]);
}

#[test]
fn rotate_of_clone_tier_hands_on_a_clone() {
    let mut slots = [Tallied::new(1), Tallied::new(2), Tallied::new(3)];
    rotate::<DeepDuplicable, Tallied>(&mut slots, &[0, 1, 2]);
    assert_eq!(
        slots,
        [
            Tallied { value: 3, clones: 0 },
            Tallied { value: 1, clones: 1 },
            Tallied { value: 2, clones: 0 },
        ]
    );
}

#[test]
fn swap_twice_restores() {
    let mut slots = [3, 5, 2, 6, 7];
    swap::<BitDuplicable, i32>(&mut slots, 1, 4);
    assert_eq!(slots, [3, 7, 2, 6, 5]);
    swap::<BitDuplicable, i32>(&mut slots, 1, 4);
    assert_eq!(slots, [3, 5, 2, 6, 7]);

    let mut slots = vec![vec![1, 2, 3], vec![4, 5]];
    swap::<ZeroConstructible, Vec<i32>>(&mut slots, 0, 1);
    assert_eq!(slots, vec![vec![4, 5], vec![1, 2, 3]]);
    swap::<ZeroConstructible, Vec<i32>>(&mut slots, 0, 1);
    assert_eq!(slots, vec![vec![1, 2, 3], vec![4, 5]]);
}

#[test]
fn self_swap_keeps_the_value() {
    let mut slots = [42];
    swap::<BitDuplicable, i32>(&mut slots, 0, 0);
    assert_eq!(slots, [42]);

    let mut slots = [Tallied::new(42)];
    swap::<DeepDuplicable, Tallied>(&mut slots, 0, 0);
    assert_eq!(slots, [Tallied { value: 42, clones: 0 }]);

    let cell = Cell::new(42);
    let value = TakeHelper::new(&cell).take();
    let value = Replace::replace(&cell, value);
    let _ = Replace::replace(&cell, value);
    assert_eq!(cell.into_inner(), 42);

    let cell = RefCell::new(42);
    let value = TakeHelper::new(&cell).take().unwrap();
    let value = Replace::replace(&cell, value).unwrap();
    let _ = Replace::replace(&cell, value).unwrap();
    assert_eq!(cell.into_inner(), 42);
}

#[test]
fn self_swap_of_default_tier_leaves_the_default() {
    // The extraction empties the slot, so the slot's own value comes back
    // as the relay value and the default is what is stored last.
    let mut slots = vec![vec![1, 2, 3]];
    swap::<ZeroConstructible, Vec<i32>>(&mut slots, 0, 0);
    assert_eq!(slots, vec![Vec::<i32>::new()]);

    let mut slots = [0];
    swap::<ZeroConstructible, i32>(&mut slots, 0, 0);
    assert_eq!(slots, [0]);
}

#[test]
fn swap_of_clone_tier_stores_a_clone_in_the_second_slot() {
    let mut slots = [Tallied::new(1), Tallied::new(2)];
    swap::<DeepDuplicable, Tallied>(&mut slots, 0, 1);
    assert_eq!(slots, [Tallied { value: 2, clones: 0 }, Tallied { value: 1, clones: 1 }]);
}

#[test]
fn visit_order_names_the_first_place_twice() {
    assert_eq!(visit_order(&[7]), vec![7, 7]);
    assert_eq!(visit_order(&[7, 3]), vec![7, 3, 7]);
    assert_eq!(visit_order(&[4, 0, 9, 0]), vec![4, 0, 9, 0, 4]);
}

#[test]
fn relay_through_all_three_kinds_of_location() {
    let mut x = 1;
    let y = Cell::new(2);
    let z = RefCell::new(3);
    let value = TakeHelper::new(&mut x).take();
    let value = Replace::replace(&y, value);
    let value = Replace::replace(&z, value).unwrap();
    let _ = Replace::replace(&mut x, value);
    assert_eq!((x, y.get(), *z.borrow()), (3, 1, 2));

    let value = TakeHelper::new(&z).take().unwrap();
    let value = Replace::replace(&mut x, value);
    let value = Replace::replace(&y, value);
    let _ = Replace::replace(&z, value).unwrap();
    assert_eq!((x, y.get(), *z.borrow()), (2, 3, 1));
}

#[test]
fn replace_through_an_alias_of_the_same_cell() {
    let cell = RefCell::new(vec![1]);
    let alias = &cell;
    let first = Replace::replace(&cell, vec![2]);
    let second = Replace::replace(alias, vec![3]);
    assert_eq!((first, second), (Ok(vec![1]), Ok(vec![2])));
    assert_eq!(cell.into_inner(), vec![3]);

    let cell = Cell::new(String::from("a"));
    let alias = &cell;
    let first = Replace::replace(&cell, String::from("b"));
    let second = Replace::replace(alias, String::from("c"));
    assert_eq!((first.as_str(), second.as_str()), ("a", "b"));
    assert_eq!(cell.into_inner(), "c");
}

#[test]
fn a_swap_that_meets_an_open_access_stops_without_rollback() {
    let mut x = vec![1];
    let c = RefCell::new(vec![2]);
    {
        let _shared = c.borrow();
        let value = TakeHelper::new(&mut x).take();
        // The second step is refused and hands the relay value back; the
        // exchange ends here, and the last store never happens.
        assert_eq!(Replace::replace(&c, value), Err(vec![1]));
    }
    assert_eq!(x, Vec::<i32>::new());
    assert_eq!(c.into_inner(), vec![2]);
}

#[test]
fn a_swap_that_starts_at_a_cell_with_an_exclusive_access_open_changes_nothing() {
    let c = RefCell::new(42);
    let y = Cell::new(84);
    {
        let _exclusive = c.borrow_mut();
        // The first step is refused: there is no relay value, and the
        // exchange ends before anything is stored.
        assert_eq!(TakeHelper::new(&c).take(), None);
    }
    assert_eq!((c.into_inner(), y.into_inner()), (42, 84));
}

#[test]
fn rotate_with_evaluates_each_expression_when_its_place_is_visited() {
    let mut slots = [10, 20, 30, 40, 50];
    let mut places = Recorded::new(vec![4, 1, 3]);
    rotate_with::<BitDuplicable, i32, Recorded>(&mut slots, &mut places);
    assert_eq!(slots, [10, 50, 30, 20, 40]);
    assert_eq!(places.into_log(), vec![0, 1, 2, 0]);
}

#[test]
fn rotate_with_keeps_logging_over_several_rotations() {
    let mut slots = vec![String::from("a"), String::from("b")];
    let mut places = Recorded::new(vec![1, 0]);
    rotate_with::<ZeroConstructible, String, Recorded>(&mut slots, &mut places);
    assert_eq!(slots, ["b", "a"]);
    rotate_with::<ZeroConstructible, String, Recorded>(&mut slots, &mut places);
    assert_eq!(slots, ["a", "b"]);
    assert_eq!(places.into_log(), vec![0, 1, 0, 0, 1, 0]);
}

#[test]
fn rotate_with_does_to_the_slots_what_rotate_does() {
    let mut by_places = [1, 2, 3];
    let mut by_expressions = [1, 2, 3];
    rotate::<BitDuplicable, i32>(&mut by_places, &[0, 1, 1, 2]);
    let mut places = Recorded::new(vec![0, 1, 1, 2]);
    rotate_with::<BitDuplicable, i32, Recorded>(&mut by_expressions, &mut places);
    assert_eq!(by_places, by_expressions);
    assert_eq!(places.into_log(), vec![0, 1, 2, 3, 0]);
}
