use gen_id_component::{Component, FromContextualIterator};

fn contents(comp: &Component<(), u32>) -> Vec<u32> {
    let mut out = Vec::new();
    let mut it = comp.iter();
    while let Some(v) = it.next() {
        out.push(*v);
    }
    out
}

#[test]
fn collect_contextual_iterator() {
    let primes = Component::<(), u32>::from(vec![2, 3, 5, 7, 11]);

    let primes_squared = primes.iter().map(|v: u32| v * v).collect();

    assert_eq!(vec![4, 9, 25, 49, 121], contents(&primes_squared));
}

#[test]
fn collect_of_lazy_product_expression() {
    let primes = Component::<(), u32>::from(vec![2, 3, 5, 7, 11]);

    let primes_squared = primes.expr().mul(primes.expr()).collect();

    assert_eq!(vec![4, 9, 25, 49, 121], contents(&primes_squared));
}

#[test]
fn collect_component_iterator_copies_values() {
    let source = Component::<(), u32>::from(vec![4, 5, 6]);

    let copied = source.iter().collect();

    assert_eq!(contents(&copied), vec![4, 5, 6]);
    assert_eq!(contents(&source), vec![4, 5, 6]);
}

#[test]
fn collect_of_empty_source_is_empty() {
    let source = Component::<(), u32>::new();

    let copied = source.iter().collect();

    assert!(copied.is_empty());
}
