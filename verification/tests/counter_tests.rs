use teledash::Counter;

#[test]
fn starts_at_zero() {
    let c = Counter::new("X");
    assert_eq!(c.count, 0);
    assert_eq!(c.title, "X");
}

#[test]
fn increase_saturates_at_255() {
    let mut c = Counter::new("X");
    for _ in 0..300 {
        c.increase_counter();
    }
    assert_eq!(c.count, 255);
    c.increase_counter();
    c.increase_counter();
    assert_eq!(c.count, 255);
}

#[test]
fn decrease_saturates_at_zero() {
    let mut c = Counter::new("X");
    c.decrease_counter();
    assert_eq!(c.count, 0);
    c.increase_counter();
    c.increase_counter();
    c.decrease_counter();
    c.decrease_counter();
    c.decrease_counter();
    assert_eq!(c.count, 0);
}
