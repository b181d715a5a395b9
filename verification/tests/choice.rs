use orbitsim::choice::{Choice, ChoiceSet};

#[test]
fn choice() {
    let cs: ChoiceSet<i32> = ChoiceSet::new(vec![1, 2, 3, 4]);
    let c: Choice<i32> = cs.by_index(0);
    assert_eq!(c.get(), 1);
    let c = c.next();
    assert_eq!(c.get(), 2);
    let c = c.prev();
    assert_eq!(c.get(), 1);
    let c = c.prev();
    let c = c.prev();
    assert_eq!(c.get(), 1);
    let c = c.next();
    let c = c.next();
    let c = c.next();
    let c = c.next();
    assert_eq!(c.get(), 4);
    let c = c.circular_next();
    assert_eq!(c.get(), 1);
    let c = c.circular_prev();
    assert_eq!(c.get(), 4);

    // Test by_index.
    let c = cs.by_index(3);
    assert_eq!(c.get(), 4);

    // Test by_value.
    let c = cs.by_value(2);
    assert_eq!(c.get(), 2);

    // The original reached the value's own methods through Deref; here they
    // apply to get().
    let c = cs.by_value(4);
    assert_eq!(c.get().trailing_zeros(), 2);
}

#[test]
fn choice_index_and_set() {
    let cs: ChoiceSet<u8> = ChoiceSet::new(vec![10, 20, 30]);
    assert_eq!(cs.len(), 3);
    assert_eq!(cs.value_at(1), 20);
    let c = cs.by_index(2);
    assert_eq!(c.index(), 2);
    let copy = c.choice_set();
    assert_eq!(copy.len(), 3);
    assert_eq!(copy.value_at(0), 10);
    let c2 = c.clone();
    assert_eq!(c2.get(), 30);
}

#[test]
fn choice_clamps_at_bounds() {
    let cs: ChoiceSet<i32> = ChoiceSet::new(vec![7]);
    let c = cs.by_index(0);
    assert_eq!(c.next().get(), 7);
    assert_eq!(c.prev().get(), 7);
    assert_eq!(c.circular_next().get(), 7);
    assert_eq!(c.circular_prev().get(), 7);
}

#[test]
fn choice_by_value_picks_first_match() {
    let cs: ChoiceSet<i32> = ChoiceSet::new(vec![5, 9, 5]);
    let c = cs.by_value(5);
    assert_eq!(c.index(), 0);
}
