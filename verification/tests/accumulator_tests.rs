use param_sync::accumulator::Accumulator;

#[test]
fn new_accumulator_is_empty() {
    let acc: Accumulator<u32> = Accumulator::new();
    assert!(acc.grs.is_empty());
    assert_eq!(acc.total_collected, 0);
}

#[test]
fn add_gradient_keeps_order_and_count() {
    let mut acc = Accumulator::new();
    acc.add_gradient(10u32);
    acc.add_gradient(20u32);
    acc.add_gradient(30u32);
    assert_eq!(acc.grs, vec![10, 20, 30]);
    assert_eq!(acc.total_collected, 3);
    assert_eq!(acc.grs.len() as u32, acc.total_collected);
}

#[test]
fn is_ready_exactly_at_worker_count() {
    let mut acc = Accumulator::new();
    for i in 0..4u32 {
        assert!(!acc.is_ready(4));
        acc.add_gradient(i);
    }
    assert!(acc.is_ready(4));
    acc.add_gradient(4);
    assert!(!acc.is_ready(4));
    assert!(acc.is_ready(5));
}

#[test]
fn reset_empties_the_accumulator() {
    let mut acc = Accumulator::new();
    acc.add_gradient(String::from("a"));
    acc.add_gradient(String::from("b"));
    acc.reset();
    assert!(acc.grs.is_empty());
    assert_eq!(acc.total_collected, 0);
    acc.add_gradient(String::from("c"));
    assert_eq!(acc.total_collected, 1);
    assert_eq!(acc.grs, vec![String::from("c")]);
}
