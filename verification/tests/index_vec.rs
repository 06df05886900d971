use gen_id_component::IndexVec;

#[test]
fn set_or_push_at_zero() {
    let mut vec = IndexVec::<u32>::new();

    vec.insert(0, 1);

    assert_eq!(vec![1u32], vec.into_vec());
}

#[test]
fn set_or_push_at_one() {
    let mut vec = IndexVec::<u32>::new();

    vec.insert(1, 1);

    assert_eq!(vec![0u32, 1], vec.into_vec());
}

#[test]
fn set_or_push_twice() {
    let mut vec = IndexVec::<u32>::new();

    vec.insert(1, 1);
    vec.insert(0, 2);

    assert_eq!(vec![2u32, 1], vec.into_vec());
}

#[test]
fn growth_by_gap_fills_defaults() {
    let mut vec = IndexVec::<u32>::new();

    vec.insert(5, 9);

    assert_eq!(vec![0u32, 0, 0, 0, 0, 9], vec.into_vec());
}

#[test]
fn insert_with_fills_gaps_from_closure() {
    let mut vec = IndexVec::<u32>::new();

    vec.insert_with(3, 42, || 7);

    assert_eq!(vec![7u32, 7, 7, 42], vec.into_vec());
}

#[test]
fn overwrite_keeps_length_and_other_slots() {
    let mut vec = IndexVec::<u32>::from_vec(vec![10, 20, 30]);

    vec.insert(1, 99);

    assert_eq!(3, vec.len());
    assert_eq!(vec![10u32, 99, 30], vec.into_vec());
}

#[test]
fn get_is_fallible() {
    let vec = IndexVec::<u32>::from_vec(vec![4, 5]);

    assert_eq!(Some(&4), vec.get(0));
    assert_eq!(Some(&5), vec.get(1));
    assert_eq!(None, vec.get(2));
}

#[test]
fn get_mut_updates_in_place() {
    let mut vec = IndexVec::<u32>::from_vec(vec![4, 5]);

    if let Some(slot) = vec.get_mut(1) {
        *slot = 50;
    }
    assert!(vec.get_mut(9).is_none());

    assert_eq!(vec![4u32, 50], vec.into_vec());
}

#[test]
fn swap_exchanges_two_slots() {
    let mut vec = IndexVec::<u32>::from_vec(vec![1, 2, 3]);

    vec.swap(0, 2);

    assert_eq!(vec![3u32, 2, 1], vec.into_vec());
}

#[test]
fn swap_same_slot_is_identity() {
    let mut vec = IndexVec::<u32>::from_vec(vec![1, 2]);

    vec.swap(1, 1);

    assert_eq!(vec![1u32, 2], vec.into_vec());
}

#[test]
fn fill_with_overwrites_every_slot() {
    let mut vec = IndexVec::<u32>::from_vec(vec![1, 2, 3]);

    vec.fill_with(|| 8);

    assert_eq!(vec![8u32, 8, 8], vec.into_vec());
}

#[test]
fn iter_is_ordered_and_restartable() {
    let vec = IndexVec::<u32>::from_vec(vec![1, 2]);

    assert_eq!(&[1u32, 2], vec.iter());
    assert_eq!(&[1u32, 2], vec.iter());
}

#[test]
fn iter_mut_allows_point_updates() {
    let mut vec = IndexVec::<u32>::from_vec(vec![1, 2]);

    let slots = vec.iter_mut();
    slots[0] = 11;

    assert_eq!(vec![11u32, 2], vec.into_vec());
}

#[test]
fn direct_indexing_reads_and_writes() {
    let mut vec = IndexVec::<u32>::from_vec(vec![1, 2]);

    assert_eq!(2, *vec.index(1));

    *vec.index_mut(0) = 9;

    assert_eq!(vec![9u32, 2], vec.into_vec());
}

#[test]
fn len_and_is_empty_track_growth() {
    let mut vec = IndexVec::<u32>::new();
    assert!(vec.is_empty());
    assert_eq!(0, vec.len());

    vec.insert(2, 1);

    assert!(!vec.is_empty());
    assert_eq!(3, vec.len());
}
