use gen_id_component::{Id, RawComponent, UntypedComponent, UntypedId};

#[test]
fn untyped_insert_fills_gaps_with_defaults() {
    let mut comp = UntypedComponent::<u32>::new();

    comp.insert(UntypedId::first(2), 9);

    assert_eq!(vec![0u32, 0, 9], comp.into_vec());
}

#[test]
fn untyped_get_and_swap() {
    let mut comp = UntypedComponent::<u32>::from_vec(vec![1, 2]);

    assert_eq!(Some(&2), comp.get(UntypedId::first(1)));
    assert_eq!(None, comp.get(UntypedId::first(5)));

    comp.swap(UntypedId::first(0), UntypedId::first(1));

    assert_eq!(vec![2u32, 1], comp.into_vec());
}

#[test]
fn untyped_iter_views_and_fill() {
    let mut comp = UntypedComponent::<u32>::from_vec(vec![1, 2]);

    assert_eq!(&[1u32, 2], comp.iter());

    let slots = comp.iter_mut();
    slots[0] = 3;
    comp.fill_with(|| 6);

    assert_eq!(2, comp.len());
    assert!(!comp.is_empty());
    assert_eq!(vec![6u32, 6], comp.into_vec());
}

#[test]
fn untyped_id_accessors() {
    let id = UntypedId::first(4);

    assert_eq!(4, id.index());
    assert_eq!(0, id.generation);
}

#[test]
fn raw_insert_appends_and_overwrites() {
    let mut comp = RawComponent::<(), u32>::new();

    comp.insert(Id::first(0), 5);
    comp.insert(Id::first(1), 6);
    comp.insert(Id::first(0), 7);

    assert_eq!(vec![7u32, 6], comp.into_vec());
}

#[test]
fn raw_remove_takes_payload_once() {
    let mut comp = RawComponent::<(), Option<u32>>::new();
    let id = Id::first(0);

    assert_eq!(None, comp.remove(id));

    comp.insert(id, Some(3));

    assert_eq!(Some(3), comp.remove(id));
    assert_eq!(None, comp.remove(id));
    assert_eq!(1, comp.len());
}

#[test]
fn raw_contextual_iter_and_index() {
    let comp = RawComponent::<(), u32>::from_vec(vec![4, 5]);

    let mut it = comp.iter();
    assert_eq!(Some(&4), it.next());
    assert_eq!(Some(&5), it.next());
    assert_eq!(None, it.next());

    assert_eq!(5, *comp.index(Id::first(1)));
}

#[test]
fn raw_assign_ref_copies_prefix() {
    let source = RawComponent::<(), u32>::from_vec(vec![7, 8]);
    let mut target = RawComponent::<(), u32>::from_vec(vec![0, 0, 3]);

    target.assign_ref(source.iter());

    assert_eq!(vec![7u32, 8, 3], target.into_vec());
    assert_eq!(vec![7u32, 8], source.into_vec());
}

#[test]
fn untyped_direct_indexing() {
    let mut comp = UntypedComponent::<u32>::from_vec(vec![1, 2]);

    assert_eq!(2, *comp.index(UntypedId::first(1)));

    *comp.index_mut(UntypedId::first(0)) = 6;

    assert_eq!(vec![6u32, 2], comp.into_vec());
}

#[test]
fn id_carries_its_untyped_index() {
    let id = Id::<()>::new(UntypedId::first(7));

    assert_eq!(7, id.index());
    assert_eq!(7, id.untyped.index());
}
