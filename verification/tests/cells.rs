use bevy_compose::cells::{OrderViolation, StateCells};

fn counting_pass(cells: &mut StateCells<u64>) -> u64 {
    let mut handle = cells.use_state(|| 0);
    let next = handle.value() + 1;
    handle.set(next);
    assert!(cells.commit(handle));
    assert_eq!(cells.end_pass(), Ok(()));
    next
}

#[test]
fn counter_cell_counts_passes() {
    let mut cells: StateCells<u64> = StateCells::new();
    for pass in 1..=25u64 {
        assert_eq!(counting_pass(&mut cells), pass);
        assert_eq!(cells.read(0), Some(pass));
    }
    let handle = cells.use_state(|| 0);
    assert_eq!(handle.value(), 25);
    assert_eq!(handle.address(), 0);
    assert_eq!(cells.len(), 1);
}

#[test]
fn make_initial_runs_once_per_slot() {
    let mut cells: StateCells<i32> = StateCells::new();
    let mut calls = 0;
    for _ in 0..4 {
        let handle = cells.use_state(|| {
            calls += 1;
            7
        });
        assert_eq!(handle.value(), 7);
        assert!(cells.commit(handle));
        assert_eq!(cells.end_pass(), Ok(()));
    }
    assert_eq!(calls, 1);
}

#[test]
fn cells_are_named_by_call_order() {
    let mut cells: StateCells<i32> = StateCells::new();
    let a = cells.use_state(|| 10);
    let b = cells.use_state(|| 20);
    assert_eq!((a.address(), a.value()), (0, 10));
    assert_eq!((b.address(), b.value()), (1, 20));
    assert_eq!(cells.end_pass(), Ok(()));
    let mut a = cells.use_state(|| -1);
    let b = cells.use_state(|| -2);
    assert_eq!((a.address(), a.value()), (0, 10));
    assert_eq!((b.address(), b.value()), (1, 20));
    a.set(11);
    assert_eq!(cells.read(0), Some(10));
    assert!(cells.commit(a));
    assert_eq!(cells.read(0), Some(11));
    assert_eq!(cells.read(1), Some(20));
    assert_eq!(cells.end_pass(), Ok(()));
}

#[test]
fn address_reaches_the_cell_outside_a_pass() {
    let mut cells: StateCells<i32> = StateCells::new();
    let handle = cells.use_state(|| 0);
    let address = handle.address();
    assert!(cells.commit(handle));
    assert_eq!(cells.end_pass(), Ok(()));
    assert!(cells.write(address, 41));
    assert_eq!(cells.read(address), Some(41));
    let handle = cells.use_state(|| 0);
    assert_eq!(handle.value(), 41);
}

#[test]
fn unknown_address_reads_nothing_and_stores_nothing() {
    let mut cells: StateCells<i32> = StateCells::new();
    assert_eq!(cells.read(0), None);
    assert!(!cells.write(0, 5));
    assert_eq!(cells.len(), 0);
    let mut other: StateCells<i32> = StateCells::new();
    let stray = other.use_state(|| 9);
    assert!(!cells.commit(stray));
    assert_eq!(cells.len(), 0);
}

#[test]
fn fewer_calls_than_before_is_an_order_violation() {
    let mut cells: StateCells<i32> = StateCells::new();
    cells.use_state(|| 1);
    cells.use_state(|| 2);
    assert_eq!(cells.end_pass(), Ok(()));
    cells.use_state(|| 1);
    assert_eq!(cells.end_pass(), Err(OrderViolation { expected: 2, found: 1 }));
}

#[test]
fn more_calls_than_before_is_an_order_violation() {
    let mut cells: StateCells<i32> = StateCells::new();
    cells.use_state(|| 1);
    assert_eq!(cells.end_pass(), Ok(()));
    cells.use_state(|| 1);
    cells.use_state(|| 2);
    assert_eq!(cells.end_pass(), Err(OrderViolation { expected: 1, found: 2 }));
    cells.use_state(|| 1);
    cells.use_state(|| 2);
    assert_eq!(cells.end_pass(), Ok(()));
}
