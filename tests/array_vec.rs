use stack_vec::{ArrayVec, SliceVec};

#[test]
fn appending_elements() {
    let mut array = ArrayVec::<i32, 2>::new();
    array.push(5).unwrap();
    array.push(6).unwrap();
    assert_eq!(array.push(7), Err(7));
    assert_eq!(array.pop(), Some(6));
    array.push(8).unwrap();
    assert_eq!(array.remove(0), Some(5));
    assert_eq!(array.pop(), Some(8));
    assert_eq!(array.pop(), None);
}

#[test]
fn full_push_hands_value_back_and_keeps_length() {
    let mut array = ArrayVec::<i32, 2>::new();
    array.push(5).unwrap();
    array.push(6).unwrap();
    assert_eq!(array.push(7), Err(7));
    assert_eq!(array.len(), 2);
    assert!(array.is_full());
    assert_eq!(array.as_slice(), &[5, 6]);
}

#[test]
fn push_then_pop_restores_contents() {
    let mut array = ArrayVec::<i32, 4>::from_array([1, 2]);
    array.push(9).unwrap();
    assert_eq!(array.pop(), Some(9));
    assert_eq!(array.as_slice(), &[1, 2]);
    assert_eq!(array.len(), 2);
}

#[test]
fn push_returns_reference_into_slot() {
    let mut array = ArrayVec::<i32, 3>::new();
    *array.push(4).unwrap() = 40;
    assert_eq!(array.as_slice(), &[40]);
}

#[test]
fn pop_on_empty_is_none() {
    let mut array = ArrayVec::<i32, 3>::new();
    assert_eq!(array.pop(), None);
    assert!(array.is_empty());
}

#[test]
fn insert_then_remove_restores_contents() {
    let mut array = ArrayVec::<i32, 5>::from_array([1, 2, 3]);
    array.insert(1, 7).unwrap();
    assert_eq!(array.as_slice(), &[1, 7, 2, 3]);
    assert_eq!(array.remove(1), Some(7));
    assert_eq!(array.as_slice(), &[1, 2, 3]);
}

#[test]
fn insert_at_end_appends() {
    let mut array = ArrayVec::<i32, 5>::from_array([1, 2, 3]);
    array.insert(3, 4).unwrap();
    assert_eq!(array.as_slice(), &[1, 2, 3, 4]);
}

#[test]
fn insert_rejects_full_and_past_end() {
    let mut array = ArrayVec::<i32, 3>::from_array([1, 2]);
    assert_eq!(array.insert(3, 9), Err(9));
    assert_eq!(array.as_slice(), &[1, 2]);
    array.insert(0, 0).unwrap();
    assert_eq!(array.insert(1, 9), Err(9));
    assert_eq!(array.as_slice(), &[0, 1, 2]);
}

#[test]
fn remove_past_end_is_none() {
    let mut array = ArrayVec::<i32, 3>::from_array([1, 2]);
    assert_eq!(array.remove(2), None);
    assert_eq!(array.as_slice(), &[1, 2]);
}

#[test]
fn swap_remove_moves_last_into_place() {
    let mut array = ArrayVec::<i32, 4>::from_array([1, 2, 3, 4]);
    assert_eq!(array.swap_remove(1), Some(2));
    assert_eq!(array.as_slice(), &[1, 4, 3]);
    assert_eq!(array.swap_remove(2), Some(3));
    assert_eq!(array.as_slice(), &[1, 4]);
    assert_eq!(array.swap_remove(2), None);
}

#[test]
fn truncate_and_clear() {
    let mut array = ArrayVec::<i32, 4>::from_array([1, 2, 3, 4]);
    array.truncate(5);
    assert_eq!(array.len(), 4);
    array.truncate(2);
    assert_eq!(array.as_slice(), &[1, 2]);
    array.clear();
    assert!(array.is_empty());
    assert_eq!(array.capacity(), 4);
}

#[test]
fn append_moves_everything() {
    let mut a = ArrayVec::<i32, 5>::from_array([1, 2]);
    let mut b = ArrayVec::<i32, 3>::from_array([3, 4, 5]);
    a.append(b.as_mut_slice_vec());
    assert_eq!(a.as_slice(), &[1, 2, 3, 4, 5]);
    assert!(b.is_empty());
    assert_eq!(b.capacity(), 3);
}

#[test]
fn capacity_introspection() {
    let mut array = ArrayVec::<i32, 4>::default();
    assert_eq!(array.capacity(), 4);
    assert_eq!(array.remaining_capacity(), 4);
    array.push(1).unwrap();
    assert_eq!(array.len(), 1);
    assert_eq!(array.remaining_capacity(), 3);
    let view: &SliceVec<i32> = array.as_slice_vec();
    assert_eq!(view.capacity(), 4);
}

#[test]
fn from_array_keeps_order() {
    let array = ArrayVec::<i32, 5>::from_array([3, 1, 2]);
    assert_eq!(array.as_slice(), &[3, 1, 2]);
    assert_eq!(array.capacity(), 5);
}

#[test]
fn get_and_get_mut() {
    let mut array = ArrayVec::<i32, 3>::from_array([1, 2]);
    assert_eq!(array.get(1), Some(&2));
    assert_eq!(array.get(2), None);
    *array.get_mut(0).unwrap() = 10;
    assert!(array.get_mut(2).is_none());
    array.as_mut_slice()[1] = 20;
    assert_eq!(array.as_slice(), &[10, 20]);
}

#[test]
fn map_ref_and_map_keep_order() {
    let array = ArrayVec::<i32, 4>::from_array([1, 2, 3]);
    let doubled = array.map_ref(|x| x * 2);
    assert_eq!(doubled.as_slice(), &[2, 4, 6]);
    assert_eq!(doubled.capacity(), 4);
    let strings = array.map(|x| x + 10);
    assert_eq!(strings.as_slice(), &[11, 12, 13]);
}

#[test]
fn clone_is_independent() {
    let mut array = ArrayVec::<i32, 3>::from_array([1, 2]);
    let copy = array.clone();
    array.push(3).unwrap();
    assert_eq!(copy.as_slice(), &[1, 2]);
    assert_eq!(array.as_slice(), &[1, 2, 3]);
}

#[test]
fn extend_from_vec_appends_in_order() {
    let mut array = ArrayVec::<i32, 5>::from_array([1]);
    array.extend_from_vec(vec![2, 3, 4]);
    assert_eq!(array.as_slice(), &[1, 2, 3, 4]);
    assert_eq!(array.remaining_capacity(), 1);
}
