use owned::IntoOwned;
use owned::Suppressed;
use std::cell::Cell;

struct CountDrops<'a>(&'a Cell<usize>);

impl<'a> Drop for CountDrops<'a> {
    fn drop(&mut self) {
        self.0.set(self.0.get() + 1);
    }
}

#[test]
fn new_view_is_full() {
    let view = Suppressed::new(5u8);
    assert!(view.is_full());
}

#[test]
fn peek_borrows_the_payload_and_leaves_it_in_the_view() {
    let mut view = Suppressed::new(vec![4u8, 5, 6]);
    assert_eq!(view.peek().map(|run| run.len()), Some(3));
    assert_eq!(view.peek(), Some(&vec![4u8, 5, 6]));
    assert!(view.is_full());

    let run = view.take();
    assert_eq!(run, vec![4u8, 5, 6]);
    assert_eq!(view.peek(), None);
}

#[test]
fn take_gives_the_payload_and_empties_the_view() {
    let mut view = Suppressed::new(String::from("payload"));
    let value = view.take();
    assert_eq!(value, "payload");
    assert!(!view.is_full());
}

#[test]
fn try_take_gives_the_payload_once() {
    let mut view = Suppressed::new(11u32);
    assert_eq!(view.try_take(), Some(11));
    assert!(!view.is_full());
    assert_eq!(view.try_take(), None);
    assert!(!view.is_full());
}

#[test]
fn full_view_does_not_drop_its_payload() {
    let drops = Cell::new(0);
    {
        let view = Suppressed::new(CountDrops(&drops));
        assert!(view.is_full());
    }
    assert_eq!(drops.get(), 0);
}

#[test]
fn taken_payload_is_dropped_once_by_its_new_owner() {
    let drops = Cell::new(0);
    {
        let mut view = Suppressed::new(CountDrops(&drops));
        let value = view.take();
        assert_eq!(drops.get(), 0);
        drop(value);
        assert_eq!(drops.get(), 1);
    }
    assert_eq!(drops.get(), 1);
}

#[test]
fn conversion_of_a_sized_value_moves_it_out() {
    let mut view: Suppressed<u64> = Suppressed::new(99);
    let owned: u64 = <u64 as IntoOwned>::into_owned_unchecked(&mut view);
    assert_eq!(owned, 99);
    assert!(!view.is_full());
}

#[test]
fn conversion_of_a_run_moves_every_element_out() {
    let drops = Cell::new(0);
    let mut view = Suppressed::new(vec![CountDrops(&drops), CountDrops(&drops)]);
    let owned: Vec<CountDrops> = <[CountDrops] as IntoOwned>::into_owned_unchecked(&mut view);
    assert_eq!(owned.len(), 2);
    assert!(!view.is_full());
    assert_eq!(drops.get(), 0);

    drop(view);
    assert_eq!(drops.get(), 0);

    drop(owned);
    assert_eq!(drops.get(), 2);
}
