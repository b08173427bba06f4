use bounded_stack::stack::{BoundedStack, StackError};

#[test]
fn new_stack_is_empty() {
    for capacity in [0usize, 1, 5, 1000] {
        let s = BoundedStack::new(capacity);
        assert_eq!(s.head(), 0);
        assert_eq!(s.capacity(), capacity);
        assert_eq!(s.display(), Err(StackError::StackEmpty));
        assert_eq!(s.top(), Err(StackError::StackEmpty));
    }
}

#[test]
fn push_within_capacity_counts_and_tops() {
    let mut s = BoundedStack::new(4);
    assert_eq!(s.push(&[7, -3]), Ok(()));
    assert_eq!(s.head(), 2);
    assert_eq!(s.top(), Ok(-3));
    assert_eq!(s.push(&[11, 12]), Ok(()));
    assert_eq!(s.head(), 4);
    assert_eq!(s.top(), Ok(12));
    assert_eq!(s.display(), Ok(vec![12, 11, -3, 7]));
}

#[test]
fn push_exactly_to_capacity_is_not_full() {
    let mut s = BoundedStack::new(3);
    assert_eq!(s.push(&[1, 2, 3]), Ok(()));
    assert_eq!(s.head(), 3);
    assert_eq!(s.push(&[]), Ok(()));
    assert_eq!(s.head(), 3);
}

#[test]
fn push_beyond_capacity_keeps_first_values() {
    let mut s = BoundedStack::new(3);
    assert_eq!(s.push(&[10, 20, 30, 40, 50]), Err(StackError::StackFull));
    assert_eq!(s.head(), 3);
    assert_eq!(s.display(), Ok(vec![30, 20, 10]));
}

#[test]
fn push_beyond_capacity_after_earlier_push() {
    let mut s = BoundedStack::new(3);
    assert_eq!(s.push(&[1]), Ok(()));
    assert_eq!(s.push(&[2, 3, 4]), Err(StackError::StackFull));
    assert_eq!(s.display(), Ok(vec![3, 2, 1]));
    assert_eq!(s.push(&[5]), Err(StackError::StackFull));
    assert_eq!(s.head(), 3);
}

#[test]
fn push_then_pop_round_trip() {
    let mut s = BoundedStack::new(4);
    assert_eq!(s.push(&[1, 2]), Ok(()));
    let before = s.display();
    assert_eq!(s.push(&[99]), Ok(()));
    assert_eq!(s.pop(), Ok(99));
    assert_eq!(s.head(), 2);
    assert_eq!(s.display(), before);
}

#[test]
fn display_twice_is_the_same() {
    let mut s = BoundedStack::new(5);
    assert_eq!(s.push(&[4, 0, -8]), Ok(()));
    let first = s.display();
    let second = s.display();
    assert_eq!(first, second);
    assert_eq!(first, Ok(vec![-8, 0, 4]));
    let e = BoundedStack::new(5);
    assert_eq!(e.display(), e.display());
}

#[test]
fn pop_empty_reports_and_stays_empty() {
    let mut s = BoundedStack::new(2);
    assert_eq!(s.pop(), Err(StackError::StackEmpty));
    assert_eq!(s.head(), 0);
    assert_eq!(s.push(&[6]), Ok(()));
    assert_eq!(s.pop(), Ok(6));
    assert_eq!(s.pop(), Err(StackError::StackEmpty));
    assert_eq!(s.head(), 0);
}

#[test]
fn top_of_zero_is_a_value_not_emptiness() {
    let mut s = BoundedStack::new(1);
    assert_eq!(s.push(&[0]), Ok(()));
    assert_eq!(s.top(), Ok(0));
    assert_eq!(s.head(), 1);
}

#[test]
fn extreme_values_are_kept() {
    let mut s = BoundedStack::new(2);
    assert_eq!(s.push(&[i32::MIN, i32::MAX]), Ok(()));
    assert_eq!(s.pop(), Ok(i32::MAX));
    assert_eq!(s.pop(), Ok(i32::MIN));
}

#[test]
fn scenario_capacity_five() {
    let mut s = BoundedStack::new(5);
    assert_eq!(s.push(&[1, 2, 3]), Ok(()));
    assert_eq!(s.head(), 3);
    assert_eq!(s.top(), Ok(3));
    assert_eq!(s.pop(), Ok(3));
    assert_eq!(s.head(), 2);
    assert_eq!(s.pop(), Ok(2));
    assert_eq!(s.head(), 1);
    assert_eq!(s.display(), Ok(vec![1]));
}

#[test]
fn scenario_capacity_two() {
    let mut s = BoundedStack::new(2);
    assert_eq!(s.push(&[5, 6, 7]), Err(StackError::StackFull));
    assert_eq!(s.head(), 2);
    assert_eq!(s.display(), Ok(vec![6, 5]));
}

#[test]
fn scenario_capacity_zero() {
    let mut s = BoundedStack::new(0);
    assert_eq!(s.push(&[42]), Err(StackError::StackFull));
    assert_eq!(s.head(), 0);
    assert_eq!(s.top(), Err(StackError::StackEmpty));
    assert_eq!(s.push(&[]), Ok(()));
    assert_eq!(s.display(), Err(StackError::StackEmpty));
}
