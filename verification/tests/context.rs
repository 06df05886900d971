use gen_id_component::Component;

#[test]
fn iter_walks_values_in_order_once() {
    let comp = Component::<(), u32>::from(vec![1, 2, 3]);

    let mut it = comp.iter();

    assert_eq!(Some(&1), it.next());
    assert_eq!(Some(&2), it.next());
    assert_eq!(Some(&3), it.next());
    assert_eq!(None, it.next());
    assert_eq!(None, it.next());
}

#[test]
fn map_defers_the_function_until_consumption() {
    let comp = Component::<(), u32>::from(vec![1, 2, 3]);
    let calls = std::cell::Cell::new(0u32);

    let mut mapped = comp.iter().map(|v: u32| {
        calls.set(calls.get() + 1);
        v + 10
    });
    assert_eq!(0, calls.get());

    let mut seen = Vec::new();
    while let Some(v) = mapped.next() {
        seen.push(v);
    }

    assert_eq!(3, calls.get());
    assert_eq!(vec![11, 12, 13], seen);
}

#[test]
fn zip_pairs_in_lockstep() {
    let a = Component::<(), u32>::from(vec![1, 2]);
    let b = Component::<(), bool>::from(vec![true, false]);

    let mut pairs = a.iter().zip(b.iter());

    assert_eq!(Some((&1, &true)), pairs.next());
    assert_eq!(Some((&2, &false)), pairs.next());
    assert_eq!(None, pairs.next());
}

#[test]
fn zip_stops_at_the_shorter_side() {
    let a = Component::<(), u32>::from(vec![1, 2, 3]);
    let b = Component::<(), u32>::from(vec![10]);

    let mut pairs = a.iter().zip(b.iter());
    let mut count: u32 = 0;
    while pairs.next().is_some() {
        count += 1;
    }

    assert_eq!(1, count);
}
