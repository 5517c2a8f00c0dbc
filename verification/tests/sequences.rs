use generic_std::{Sequence, SequenceMut, WithCapacity};

#[test]
fn push_sets_last_and_grows_by_one() {
    let mut v: Vec<u32> = vec![4, 9];
    let before = Sequence::len(&v);
    SequenceMut::push(&mut v, 7);
    assert_eq!(Sequence::last(&v), Some(&7));
    assert_eq!(Sequence::len(&v), before + 1);
}

#[test]
fn pop_undoes_push() {
    let mut v: Vec<u32> = vec![4, 9];
    let before = v.clone();
    SequenceMut::push(&mut v, 7);
    assert_eq!(SequenceMut::pop(&mut v), Some(7));
    assert_eq!(v, before);
}

#[test]
fn pop_on_empty_returns_none() {
    let mut v: Vec<u32> = Vec::new();
    assert_eq!(SequenceMut::pop(&mut v), None);
    assert!(v.is_empty());
}

#[test]
fn remove_undoes_insert() {
    let mut v: Vec<u32> = vec![4, 9, 2];
    let before = v.clone();
    SequenceMut::insert(&mut v, 1, 7);
    assert_eq!(SequenceMut::remove(&mut v, 1), 7);
    assert_eq!(v, before);

    SequenceMut::insert(&mut v, 3, 8);
    assert_eq!(SequenceMut::remove(&mut v, 3), 8);
    assert_eq!(v, before);
}

#[test]
fn first_and_last_on_empty_return_none() {
    let v: Vec<u32> = Vec::new();
    assert_eq!(Sequence::first(&v), None);
    assert_eq!(Sequence::last(&v), None);
    assert!(Sequence::is_empty(&v));
    assert_eq!(Sequence::len(&v), 0);
}

#[test]
fn first_and_last_on_filled_sequence() {
    let v: Vec<u32> = vec![3, 1, 4];
    assert_eq!(Sequence::first(&v), Some(&3));
    assert_eq!(Sequence::last(&v), Some(&4));
}

#[test]
fn get_is_bounds_checked() {
    let v: Vec<u32> = vec![10, 20];
    assert_eq!(Sequence::get(&v, 0), Some(&10));
    assert_eq!(Sequence::get(&v, 1), Some(&20));
    assert_eq!(Sequence::get(&v, 2), None);
    assert_eq!(Sequence::get(&v, usize::MAX), None);
}

#[test]
fn contains_scans_linearly() {
    let v: Vec<u32> = vec![5, 5, 8];
    assert!(Sequence::contains(&v, &5));
    assert!(Sequence::contains(&v, &8));
    assert!(!Sequence::contains(&v, &9));
    let empty: Vec<u32> = Vec::new();
    assert!(!Sequence::contains(&empty, &5));
}

#[test]
fn with_capacity_starts_empty() {
    let v: Vec<u32> = WithCapacity::with_capacity(16);
    assert!(v.is_empty());
    assert!(SequenceMut::capacity(&v) >= 16);
}

#[test]
fn capacity_operations_keep_elements() {
    let mut v: Vec<u32> = vec![1, 2, 3];
    SequenceMut::reserve(&mut v, 100);
    assert!(SequenceMut::capacity(&v) >= 103);
    assert_eq!(v, vec![1, 2, 3]);
    SequenceMut::reserve_exact(&mut v, 200);
    assert!(SequenceMut::capacity(&v) >= 203);
    assert_eq!(v, vec![1, 2, 3]);
    SequenceMut::shrink_to_fit(&mut v);
    assert_eq!(v, vec![1, 2, 3]);
    assert!(SequenceMut::capacity(&v) >= 3);
}

#[test]
fn clear_removes_all_elements() {
    let mut v: Vec<u32> = vec![1, 2, 3];
    SequenceMut::clear(&mut v);
    assert!(v.is_empty());
    assert_eq!(Sequence::last(&v), None);
}
