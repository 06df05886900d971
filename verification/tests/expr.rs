use gen_id_component::{Component, FromContextualIterator};

fn contents(comp: &Component<(), u32>) -> Vec<u32> {
    let mut out = Vec::new();
    let mut it = comp.iter();
    while let Some(v) = it.next() {
        out.push(*v);
    }
    out
}

#[test]
fn building_an_expression_mutates_nothing() {
    let a = Component::<(), u32>::from(vec![1]);
    let b = Component::<(), u32>::from(vec![2]);

    let pending = a.expr().add(b.expr());

    assert_eq!(contents(&a), vec![1]);
    assert_eq!(contents(&b), vec![2]);

    let materialized = pending.collect();

    assert_eq!(contents(&materialized), vec![3]);
    assert_eq!(contents(&a), vec![1]);
    assert_eq!(contents(&b), vec![2]);
}

#[test]
fn sub_and_div_and_rem_values() {
    let a = Component::<(), u32>::from(vec![9, 14, 7]);
    let b = Component::<(), u32>::from(vec![2, 7, 3]);

    assert_eq!(contents(&a.expr().sub(b.expr()).collect()), vec![7, 7, 4]);
    assert_eq!(contents(&a.expr().div(b.expr()).collect()), vec![4, 2, 2]);
    assert_eq!(contents(&a.expr().rem(b.expr()).collect()), vec![1, 0, 1]);
}

#[test]
fn bitwise_and_shift_values() {
    let a = Component::<(), u32>::from(vec![0b1100, 3]);
    let b = Component::<(), u32>::from(vec![0b1010, 2]);

    assert_eq!(contents(&a.expr().bitand(b.expr()).collect()), vec![0b1000, 2]);
    assert_eq!(contents(&a.expr().bitor(b.expr()).collect()), vec![0b1110, 3]);
    assert_eq!(contents(&a.expr().bitxor(b.expr()).collect()), vec![0b0110, 1]);
    assert_eq!(contents(&a.expr().shl(b.expr()).collect()), vec![12288, 12]);
    assert_eq!(contents(&a.expr().shr(b.expr()).collect()), vec![0, 0]);
}

#[test]
fn not_complements_every_value() {
    let a = Component::<(), u32>::from(vec![0, u32::MAX]);

    assert_eq!(contents(&a.expr().not().collect()), vec![u32::MAX, 0]);
}

#[test]
fn binary_expression_truncates_at_shorter_operand() {
    let a = Component::<(), u32>::from(vec![1, 2, 3]);
    let b = Component::<(), u32>::from(vec![10, 20]);

    assert_eq!(contents(&a.expr().add(b.expr()).collect()), vec![11, 22]);
}

#[test]
fn compound_assign_variants() {
    let rhs = Component::<(), u32>::from(vec![2, 2]);
    let mut target = Component::<(), u32>::from(vec![8, 5]);

    target.sub_assign(rhs.expr());
    assert_eq!(contents(&target), vec![6, 3]);

    target.mul_assign(rhs.expr());
    assert_eq!(contents(&target), vec![12, 6]);

    target.div_assign(rhs.expr());
    assert_eq!(contents(&target), vec![6, 3]);

    target.rem_assign(rhs.expr());
    assert_eq!(contents(&target), vec![0, 1]);

    target.bitor_assign(rhs.expr());
    assert_eq!(contents(&target), vec![2, 3]);

    target.bitand_assign(rhs.expr());
    assert_eq!(contents(&target), vec![2, 2]);

    target.shl_assign(rhs.expr());
    assert_eq!(contents(&target), vec![8, 8]);

    target.shr_assign(rhs.expr());
    assert_eq!(contents(&target), vec![2, 2]);

    target.bitxor_assign(rhs.expr());
    assert_eq!(contents(&target), vec![0, 0]);

    target.add_assign(rhs.expr());
    assert_eq!(contents(&target), vec![2, 2]);
}

#[test]
fn assign_truncates_and_keeps_tail() {
    let short = Component::<(), u32>::from(vec![41]);
    let mut target = Component::<(), u32>::from(vec![0, 9]);

    target.assign(short.expr());

    assert_eq!(contents(&target), vec![41, 9]);
}

#[test]
fn composed_expression_stays_lazy_until_assigned() {
    let a = Component::<(), u32>::from(vec![3, 4]);
    let b = Component::<(), u32>::from(vec![5, 6]);
    let mut target = Component::<(), u32>::from(vec![0, 0]);

    let pending = a.expr().add(b.expr()).mul(a.expr());
    assert_eq!(contents(&target), vec![0, 0]);

    target.assign(pending);

    assert_eq!(contents(&target), vec![24, 40]);
}
