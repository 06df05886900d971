use gen_id_component::{Component, Id, Valid};

fn get_id(i: usize) -> Valid<Id<()>> {
    Valid::new(Id::first(i))
}

fn contents(comp: &Component<(), u32>) -> Vec<u32> {
    let mut out = Vec::new();
    let mut it = comp.iter();
    while let Some(v) = it.next() {
        out.push(*v);
    }
    out
}

#[test]
fn add_then_add_assign() {
    let mut ones = Component::<(), u32>::new();
    let mut target = Component::<(), u32>::new();
    let id = get_id(0);
    ones.insert(id, 1);
    target.insert(id, 0);

    target.add_assign(ones.expr().add(ones.expr()));

    assert_eq!(2, *target.index(id));
}

#[test]
fn assign() {
    let mut ones = Component::<(), u32>::new();
    let mut target = Component::<(), u32>::new();
    let id = get_id(0);
    ones.insert(id, 1);
    target.insert(id, 0);

    target.assign(ones.expr().add(ones.expr()));

    assert_eq!(2, *target.index(id));
}

#[test]
fn assign_ref() {
    let mut ones = Component::<(), u32>::new();
    let mut target = Component::<(), u32>::new();
    let id = get_id(0);
    ones.insert(id, 1);
    target.insert(id, 0);

    target.assign_ref(ones.iter());

    assert_eq!(1, *target.index(id));
}

#[test]
fn lots_of_math() {
    let mut target = Component::<(), u32>::from(vec![0, 0, 0]);
    let ints = Component::<(), u32>::from(vec![1, 2, 3]);
    let primes = Component::<(), u32>::from(vec![2, 3, 5]);

    target.assign(primes.expr().add(ints.expr()).mul(primes.expr()));

    assert_eq!(contents(&target), vec![6, 15, 40]);
}

#[test]
fn remove() {
    let id = get_id(0);
    let mut comp = Component::<(), Option<u32>>::new();

    assert_eq!(None, comp.remove(id));

    comp.insert(id, Some(5));

    assert_eq!(Some(5), comp.remove(id));
    assert_eq!(None, comp.remove(id));
}

#[test]
fn insert_then_get_round_trip() {
    let mut comp = Component::<(), u32>::new();
    let id = get_id(0);

    comp.insert(id, 17);

    assert_eq!(Some(&17), comp.get(id));
}

#[test]
fn get_on_missing_slot_is_none() {
    let comp = Component::<(), u32>::new();

    assert_eq!(None, comp.get(get_id(0)));
    assert_eq!(None, comp.get(get_id(3)));
}

#[test]
fn overwrite_changes_only_that_slot() {
    let mut comp = Component::<(), u32>::from(vec![10, 20, 30]);

    comp.insert(get_id(1), 99);

    assert_eq!(3, comp.len());
    assert_eq!(contents(&comp), vec![10, 99, 30]);
}

#[test]
fn swap_exchanges_and_keeps_length() {
    let mut comp = Component::<(), u32>::from(vec![1, 2, 3]);

    comp.swap(get_id(0), get_id(2));

    assert_eq!(3, comp.len());
    assert_eq!(contents(&comp), vec![3, 2, 1]);
}

#[test]
fn get_mut_updates_one_slot() {
    let mut comp = Component::<(), u32>::from(vec![1, 2]);

    if let Some(slot) = comp.get_mut(get_id(1)) {
        *slot = 22;
    }

    assert_eq!(contents(&comp), vec![1, 22]);
}

#[test]
fn index_mut_writes_through() {
    let mut comp = Component::<(), u32>::from(vec![1, 2]);

    *comp.index_mut(get_id(0)) = 5;

    assert_eq!(contents(&comp), vec![5, 2]);
}

#[test]
fn fill_with_overwrites_in_place() {
    let mut comp = Component::<(), u32>::from(vec![1, 2, 3]);

    comp.fill_with(|| 4);

    assert_eq!(contents(&comp), vec![4, 4, 4]);
}

#[test]
fn iter_mut_view_updates_slots() {
    let mut comp = Component::<(), u32>::from(vec![1, 2]);

    let slots = comp.iter_mut();
    slots[1] = 20;

    assert_eq!(contents(&comp), vec![1, 20]);
}

#[test]
fn assign_ref_leaves_source_unchanged() {
    let source = Component::<(), u32>::from(vec![7, 8]);
    let mut target = Component::<(), u32>::from(vec![0, 0]);

    target.assign_ref(source.iter());

    assert_eq!(contents(&source), vec![7, 8]);
    assert_eq!(contents(&target), vec![7, 8]);
}

#[test]
fn assign_ref_truncates_at_shorter_side() {
    let source = Component::<(), u32>::from(vec![7]);
    let mut target = Component::<(), u32>::from(vec![1, 2, 3]);

    target.assign_ref(source.iter());

    assert_eq!(contents(&target), vec![7, 2, 3]);
}

struct Stable;

impl gen_id_component::Fixed for Stable {}

#[test]
fn fixed_arena_allows_bare_id_indexing() {
    let mut comp = Component::<Stable, u32>::new();
    let id = Id::<Stable>::first(0);

    comp.insert(id, 31);

    assert_eq!(31, *comp.index(id));
    assert_eq!(Some(&31), comp.get(id));
}

#[test]
fn indexing_by_id_reference_forms() {
    let mut comp = Component::<Stable, u32>::from(vec![40, 41]);
    let id = Id::<Stable>::first(1);

    assert_eq!(41, *comp.index(&id));
    assert_eq!(41, *comp.index(Valid::new(&id)));

    comp.insert(&id, 50);

    assert_eq!(50, *comp.index(&id));
}

#[test]
fn index_range_yields_contiguous_view() {
    let comp = Component::<Stable, u32>::from(vec![5, 6, 7, 8]);
    let range = gen_id_component::IdRange::<Stable>::new(1, 3);

    assert_eq!(&[6u32, 7], comp.index_range(range));
}
