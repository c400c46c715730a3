//! The fluent accumulator for unsigned counts.

use metric_time::Builder;

#[test]
fn it_builds_integers_with_simple_operations() {
    let builder = Builder::new(23)
        .add(5)
        .subtract(1)
        .mulitply_by(4)
        .divide_by(2);
    assert_eq!(builder.all().len(), 5);
    let output = builder.build();
    assert_eq!(output, 54);
}

#[test]
fn it_can_apply_modulo_to_integers() {
    assert_eq!(Builder::new(4).modulo(2).build(), 0);
    assert_eq!(Builder::new(4).modulo(3).build(), 1);
    assert_eq!(Builder::new(5).modulo(3).build(), 2);
}

#[test]
fn it_keeps_the_history_of_values() {
    let builder = Builder::new(10).add(5).mulitply_by(2);
    assert_eq!(builder.all(), vec![10, 15, 30]);
    assert_eq!(builder.build(), 30);
}

#[test]
fn it_starts_a_fresh_chain_from_another_builder() {
    let first = Builder::new(10).add(5);
    let second = Builder::from(first);
    assert_eq!(second.build(), 15);
    assert_eq!(second.all(), vec![15]);
}

#[test]
fn it_combines_chains_through_builder_operands() {
    let result = Builder::new(10)
        .add_from_builder(Builder::new(5))
        .subtract_from_builder(Builder::new(3))
        .mulitply_by_builder(Builder::new(4))
        .divide_by_builder(Builder::new(6))
        .modulo_from_builder(Builder::new(5))
        .build();
    // ((10 + 5 - 3) * 4 / 6) % 5 = 3
    assert_eq!(result, 3);
}

#[test]
fn it_compares_builders_by_their_current_value() {
    assert!(Builder::new(10).add(5) == Builder::new(15));
    assert!(Builder::new(10) != Builder::new(11));
}

#[test]
fn it_randomizes_within_a_range() {
    let one_choice = Builder::new(0).randomize_within(5..6);
    assert_eq!(one_choice.build(), 5);
    let bounded = Builder::new(0).randomize_within(10..20).build();
    assert!((10..20).contains(&bounded));
    let replaced = Builder::new(7).randomize();
    assert_eq!(replaced.all()[0], 7);
}
