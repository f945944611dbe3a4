use generator::generator::{Generator, Yielder};

#[test]
fn iteration() {
    let mut y = Yielder::new();
    y.emit(1);
    y.emit(2);
    y.emit(3);
    let mut gen = Generator::new(y);

    assert_eq!(gen.next(), Some(1));
    assert_eq!(gen.next(), Some(2));
    assert_eq!(gen.next(), Some(3));
    assert_eq!(gen.next(), None);
}

#[test]
fn for_loop() {
    let mut y = Yielder::new();
    y.emit(1);
    y.emit(2);
    y.emit(3);
    let mut gen = Generator::new(y);

    let mut returns = [1, 2, 3].into_iter();
    while let Some(i) = gen.next() {
        assert_eq!(i, returns.next().unwrap());
    }
    assert!(returns.next().is_none());
}

#[test]
fn big_generator() {
    let mut y = Yielder::new();
    for i in 0..10000 {
        y.emit(i);
    }
    let mut gen = Generator::new(y);

    let mut produced = Vec::new();
    while let Some(v) = gen.next() {
        produced.push(v);
    }
    assert!(produced.into_iter().eq(0..10000));
}

#[test]
fn yield_from() {
    let mut inner = Yielder::new();
    for i in 0..100 {
        inner.emit(i);
    }
    let nested = Generator::new(inner);

    let mut y = Yielder::new();
    y.yield_from_generator(nested);
    y.yield_from((0..100).collect());
    let mut gen = Generator::new(y);

    let mut produced = Vec::new();
    while let Some(v) = gen.next() {
        produced.push(v);
    }
    assert!(produced.into_iter().eq((0..100).chain(0..100)));
}

#[test]
fn empty_body_first_pull_exhausted() {
    let y: Yielder<i32> = Yielder::new();
    let mut gen = Generator::new(y);

    assert_eq!(gen.next(), None);
}

#[test]
fn exhausted_stays_exhausted() {
    let mut y = Yielder::new();
    y.emit(1);
    y.emit(2);
    y.emit(3);
    let mut gen = Generator::new(y);

    assert_eq!(gen.next(), Some(1));
    assert_eq!(gen.next(), Some(2));
    assert_eq!(gen.next(), Some(3));
    assert_eq!(gen.next(), None);
    assert_eq!(gen.next(), None);
}

#[test]
fn emit_from_sequences_concatenate() {
    let mut y = Yielder::new();
    y.yield_from(vec![10, 20]);
    y.yield_from(vec![30, 40, 50]);
    let mut gen = Generator::new(y);

    assert_eq!(gen.next(), Some(10));
    assert_eq!(gen.next(), Some(20));
    assert_eq!(gen.next(), Some(30));
    assert_eq!(gen.next(), Some(40));
    assert_eq!(gen.next(), Some(50));
    assert_eq!(gen.next(), None);
}

#[test]
fn yield_from_empty_source() {
    let mut y = Yielder::new();
    y.yield_from(Vec::<u8>::new());
    y.emit(9);
    let mut gen = Generator::new(y);

    assert_eq!(gen.next(), Some(9));
    assert_eq!(gen.next(), None);
}

#[test]
fn repeated_values_neither_skipped_nor_duplicated() {
    let mut y = Yielder::new();
    y.emit(5);
    y.emit(5);
    y.emit(5);
    let mut gen = Generator::new(y);

    assert_eq!(gen.next(), Some(5));
    assert_eq!(gen.next(), Some(5));
    assert_eq!(gen.next(), Some(5));
    assert_eq!(gen.next(), None);
}

#[test]
fn nested_generator_contributes_its_undelivered_values() {
    let mut inner_y = Yielder::new();
    for i in 0..5 {
        inner_y.emit(i);
    }
    let mut nested = Generator::new(inner_y);
    assert_eq!(nested.next(), Some(0));

    let mut y = Yielder::new();
    y.yield_from_generator(nested);
    let mut gen = Generator::new(y);

    for i in 1..5 {
        assert_eq!(gen.next(), Some(i));
    }
    assert_eq!(gen.next(), None);
}
