use linked_lists::second::List;

#[test]
fn second_basics() {
    let mut list = List::new();

    // Check empty list behaves right
    assert_eq!(list.pop(), None);

    // Populate list
    list.push(1);
    list.push(2);
    list.push(3);

    // Check normal removal
    assert_eq!(list.pop(), Some(3));
    assert_eq!(list.pop(), Some(2));

    // Push some more just to make sure nothing's corrupted
    list.push(4);
    list.push(5);

    // Check normal removal
    assert_eq!(list.pop(), Some(5));
    assert_eq!(list.pop(), Some(4));

    // Check exhaustion
    assert_eq!(list.pop(), Some(1));
    assert_eq!(list.pop(), None);
}

#[test]
fn peek() {
    let mut list = List::new();
    assert_eq!(list.peek(), None);
    assert_eq!(list.peek_mut(), None);
    list.push(1);
    list.push(2);
    list.push(3);

    assert_eq!(list.peek(), Some(&3));
    assert_eq!(list.peek_mut(), Some(&mut 3));
    list.peek_mut().map(|value| *value = 42);

    assert_eq!(list.peek(), Some(&42));
    assert_eq!(list.pop(), Some(42));
}

#[test]
fn second_into_iter() {
    let mut list = List::new();
    list.push(1);
    list.push(2);
    list.push(3);

    let mut iter = list.into_iter();
    assert_eq!(iter.next(), Some(3));
    assert_eq!(iter.next(), Some(2));
    assert_eq!(iter.next(), Some(1));
    assert_eq!(iter.next(), None);
}

#[test]
fn second_iter() {
    let mut list = List::new();
    list.push(1);
    list.push(2);
    list.push(3);

    let mut iter = list.iter();
    assert_eq!(iter.next(), Some(&3));
    assert_eq!(iter.next(), Some(&2));
    assert_eq!(iter.next(), Some(&1));
    assert_eq!(iter.next(), None);
    assert_eq!(iter.next(), None);

    // the stack is left as it was
    assert_eq!(list.pop(), Some(3));
}

#[test]
fn second_peek_keeps_count_and_order() {
    let mut list = List::new();
    list.push(1);
    list.push(2);
    assert_eq!(list.peek(), Some(&2));
    if let Some(top) = list.peek_mut() {
        *top = 20;
    }
    let mut iter = list.iter();
    assert_eq!(iter.next(), Some(&20));
    assert_eq!(iter.next(), Some(&1));
    assert_eq!(iter.next(), None);
    assert_eq!(list.pop(), Some(20));
    assert_eq!(list.pop(), Some(1));
    assert_eq!(list.pop(), None);
}

#[test]
fn second_pops_on_drained_stack() {
    let mut list = List::new();
    list.push(String::from("a"));
    assert_eq!(list.pop(), Some(String::from("a")));
    assert_eq!(list.pop(), None);
    assert_eq!(list.pop(), None);
    assert_eq!(list.peek(), None);
}

#[test]
fn second_interleaved_count() {
    let mut list = List::new();
    let mut live = 0;
    for i in 0..50 {
        list.push(i);
        live += 1;
        if i % 3 == 0 {
            assert!(list.pop().is_some());
            live -= 1;
        }
    }
    let mut count = 0;
    let mut iter = list.iter();
    while iter.next().is_some() {
        count += 1;
    }
    assert_eq!(count, live);
}

#[test]
fn second_long_stack_drops() {
    let mut list = List::new();
    for i in 0..100_000 {
        list.push(i);
    }
    drop(list);
}
