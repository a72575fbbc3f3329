use std::cell::Cell;
use std::rc::Rc;

use stack_vec::ArrayVec;

#[test]
fn drain_yields_range_and_closes_gap() {
    let mut values = ArrayVec::<i32, 6>::from_array([1, 2, 3, 4, 5, 6]);
    let mut iter = values.drain(1..3);
    assert_eq!(iter.len(), 2);
    assert_eq!(iter.next(), Some(2));
    assert_eq!(iter.next(), Some(3));
    assert_eq!(iter.next(), None);
    drop(iter);
    assert_eq!(values.as_slice(), &[1, 4, 5, 6]);
    values.drain(0..usize::MAX);
    assert!(values.is_empty());
}

#[test]
fn drain_dropped_early_removes_whole_range() {
    let mut values = ArrayVec::<i32, 6>::from_array([1, 2, 3, 4, 5, 6]);
    let mut iter = values.drain(2..5);
    assert_eq!(iter.next(), Some(3));
    drop(iter);
    assert_eq!(values.as_slice(), &[1, 2, 6]);
    assert_eq!(values.len(), 3);
}

#[test]
fn drain_from_both_ends() {
    let mut values = ArrayVec::<i32, 6>::from_array([1, 2, 3, 4, 5, 6]);
    let mut iter = values.drain(1..5);
    assert_eq!(iter.next_back(), Some(5));
    assert_eq!(iter.next(), Some(2));
    assert_eq!(iter.next_back(), Some(4));
    assert_eq!(iter.next(), Some(3));
    assert_eq!(iter.next_back(), None);
    drop(iter);
    assert_eq!(values.as_slice(), &[1, 6]);
}

#[test]
fn drain_range_is_clamped() {
    let mut values = ArrayVec::<i32, 6>::from_array([1, 2, 3]);
    let mut iter = values.drain(2..10);
    assert_eq!(iter.next(), Some(3));
    assert_eq!(iter.next(), None);
    drop(iter);
    assert_eq!(values.as_slice(), &[1, 2]);
    let iter = values.drain(5..1);
    assert_eq!(iter.len(), 0);
    drop(iter);
    assert_eq!(values.as_slice(), &[1, 2]);
}

#[test]
fn drain_keep_rest_puts_pending_back() {
    let mut values = ArrayVec::<i32, 6>::new();
    values.push(42).unwrap();
    values.push(43).unwrap();
    values.push(44).unwrap();
    values.push(45).unwrap();
    let mut iter = values.drain(1..3);
    assert_eq!(iter.next(), Some(43));
    iter.keep_rest();
    assert_eq!(values.as_slice(), &[42, 44, 45]);
}

#[test]
fn into_iter_from_both_ends() {
    let array = ArrayVec::<i32, 8>::from_array([1, 2, 3, 4, 5]);
    let mut iter = array.into_iter();
    assert_eq!(iter.len(), 5);
    let mut fronts = Vec::new();
    let mut backs = Vec::new();
    fronts.push(iter.next().unwrap());
    backs.push(iter.next_back().unwrap());
    backs.push(iter.next_back().unwrap());
    fronts.push(iter.next().unwrap());
    fronts.push(iter.next().unwrap());
    assert_eq!(iter.next(), None);
    assert_eq!(iter.next_back(), None);
    assert_eq!(fronts, vec![1, 2, 3]);
    assert_eq!(backs, vec![5, 4]);
}

#[test]
fn into_iter_nth_and_nth_back() {
    let array = ArrayVec::<i32, 8>::from_array([1, 2, 3, 4, 5, 6, 7]);
    let mut iter = array.into_iter();
    assert_eq!(iter.nth(1), Some(2));
    assert_eq!(iter.nth_back(1), Some(6));
    assert_eq!(iter.len(), 3);
    assert_eq!(iter.next(), Some(3));
    assert_eq!(iter.nth(5), None);
    assert!(iter.is_empty());
}

#[test]
fn into_iter_last_and_clone() {
    let array = ArrayVec::<i32, 4>::from_array([1, 2, 3]);
    let mut iter = array.into_iter();
    assert_eq!(iter.next(), Some(1));
    let copy = iter.clone();
    assert_eq!(iter.last(), Some(3));
    let mut copy = copy;
    assert_eq!(copy.next(), Some(2));
    assert_eq!(copy.as_slice_vec_into_iter().len(), 1);
}

struct Counted(i32, Rc<Cell<usize>>);

impl Drop for Counted {
    fn drop(&mut self) {
        self.1.set(self.1.get() + 1);
    }
}

fn counted(count: &Rc<Cell<usize>>, values: [i32; 6]) -> ArrayVec<Counted, 6> {
    let mut array = ArrayVec::new();
    for v in values {
        assert!(array.push(Counted(v, count.clone())).is_ok());
    }
    array
}

#[test]
fn dropping_container_drops_each_element_once() {
    let count = Rc::new(Cell::new(0));
    let array = counted(&count, [1, 2, 3, 4, 5, 6]);
    assert_eq!(count.get(), 0);
    drop(array);
    assert_eq!(count.get(), 6);
}

#[test]
fn drain_partly_pulled_drops_each_element_once() {
    let count = Rc::new(Cell::new(0));
    let mut array = counted(&count, [1, 2, 3, 4, 5, 6]);
    let mut iter = array.drain(1..3);
    let first = iter.next().unwrap();
    assert_eq!(first.0, 2);
    drop(iter);
    assert_eq!(count.get(), 1);
    drop(first);
    assert_eq!(count.get(), 2);
    assert_eq!(array.len(), 4);
    drop(array);
    assert_eq!(count.get(), 6);
}

#[test]
fn into_iter_dropped_early_drops_rest() {
    let count = Rc::new(Cell::new(0));
    let array = counted(&count, [1, 2, 3, 4, 5, 6]);
    let mut iter = array.into_iter();
    let first = iter.next().unwrap();
    assert_eq!(first.0, 1);
    drop(iter);
    assert_eq!(count.get(), 5);
    drop(first);
    assert_eq!(count.get(), 6);
}
