use frame_allocator::list::List;

#[test]
fn list_push_and_read_tail() {
    let mut l: List<usize> = List::new();
    assert_eq!(l.len(), 0);
    assert!(l.get_last_value().is_none());
    l.push(1);
    l.push(2);
    l.push(3);
    assert_eq!(l.len(), 3);
    assert_eq!(l.get_last_value(), Some(&3));
}

#[test]
fn list_pop_removes_the_tail() {
    let mut l: List<usize> = List::new();
    l.push(10);
    l.push(20);
    l.pop();
    assert_eq!(l.len(), 1);
    assert_eq!(l.get_last_value(), Some(&10));
    l.pop();
    assert_eq!(l.len(), 0);
    assert!(l.get_last_value().is_none());
    // Popping an empty list does nothing.
    l.pop();
    assert_eq!(l.len(), 0);
}
