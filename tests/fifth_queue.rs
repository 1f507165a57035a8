use linked_lists::fifth::List;

#[test]
fn fifth_basics() {
    let mut list = List::new();

    // Check empty list behaves right
    assert_eq!(list.pop(), None);

    // Populate list
    list.push(1);
    list.push(2);
    list.push(3);

    // Check normal removal
    assert_eq!(list.pop(), Some(1));
    assert_eq!(list.pop(), Some(2));

    // Push some more just to make sure nothing's corrupted
    list.push(4);
    list.push(5);

    // Check normal removal
    assert_eq!(list.pop(), Some(3));
    assert_eq!(list.pop(), Some(4));

    // Check exhaustion
    assert_eq!(list.pop(), Some(5));
    assert_eq!(list.pop(), None);

    // Check the exhaustion case left the queue usable
    list.push(6);
    list.push(7);

    // Check normal removal
    assert_eq!(list.pop(), Some(6));
    assert_eq!(list.pop(), Some(7));
    assert_eq!(list.pop(), None);
}

#[test]
fn fifth_into_iter() {
    let mut list = List::new();
    list.push(1);
    list.push(2);
    list.push(3);

    let mut iter = list.into_iter();
    assert_eq!(iter.next(), Some(1));
    assert_eq!(iter.next(), Some(2));
    assert_eq!(iter.next(), Some(3));
    assert_eq!(iter.next(), None);
}

#[test]
fn iter() {
    let mut list = List::new();
    list.push(1);
    list.push(2);
    list.push(3);

    let mut iter = list.iter();
    assert_eq!(iter.next(), Some(&1));
    assert_eq!(iter.next(), Some(&2));
    assert_eq!(iter.next(), Some(&3));
    assert_eq!(iter.next(), None);
}

#[test]
fn iter_mut() {
    let mut list = List::new();
    list.push(1);
    list.push(2);
    list.push(3);

    let mut iter = list.iter_mut();
    assert_eq!(iter.next(), Some(&mut 1));
    assert_eq!(iter.next(), Some(&mut 2));
    assert_eq!(iter.next(), Some(&mut 3));
    assert_eq!(iter.next(), None);
}

#[test]
fn fifth_iter_mut_writes_are_kept() {
    let mut list = List::new();
    list.push(1);
    list.push(2);
    list.push(3);

    let mut iter = list.iter_mut();
    while let Some(value) = iter.next() {
        *value *= 10;
    }
    assert_eq!(list.peek(), Some(&10));
    let mut iter = list.iter();
    assert_eq!(iter.next(), Some(&10));
    assert_eq!(iter.next(), Some(&20));
    assert_eq!(iter.next(), Some(&30));
    assert_eq!(iter.next(), None);
    assert_eq!(list.pop(), Some(10));
    assert_eq!(list.pop(), Some(20));
    assert_eq!(list.pop(), Some(30));
    assert_eq!(list.pop(), None);
}

#[test]
fn fifth_peek() {
    let mut list = List::new();
    assert_eq!(list.peek(), None);
    assert_eq!(list.peek_mut(), None);
    list.push(1);
    list.push(2);
    list.push(3);

    assert_eq!(list.peek(), Some(&1));
    assert_eq!(list.peek_mut(), Some(&mut 1));
    if let Some(value) = list.peek_mut() {
        *value = 42;
    }

    assert_eq!(list.peek(), Some(&42));
    assert_eq!(list.pop(), Some(42));
    assert_eq!(list.pop(), Some(2));
    assert_eq!(list.pop(), Some(3));
    assert_eq!(list.pop(), None);
}

#[test]
fn fifth_pops_on_empty_stay_empty() {
    let mut list: List<u8> = List::new();
    assert_eq!(list.pop(), None);
    assert_eq!(list.pop(), None);
    assert_eq!(list.peek(), None);
    let mut iter = list.iter();
    assert_eq!(iter.next(), None);
}

#[test]
fn fifth_pops_in_order_of_pushes() {
    let mut list = List::new();
    for i in 0..100 {
        list.push(i);
    }
    for i in 0..100 {
        assert_eq!(list.pop(), Some(i));
    }
    assert_eq!(list.pop(), None);
}

#[test]
fn fifth_interleaved_count() {
    let mut list = List::new();
    let mut live = 0;
    for i in 0..50 {
        list.push(i);
        live += 1;
        if i % 4 == 1 {
            assert!(list.pop().is_some());
            live -= 1;
        }
    }
    let mut count = 0;
    let mut iter = list.iter();
    while iter.next().is_some() {
        count += 1;
    }
    assert_eq!(count, live);
}

#[test]
fn fifth_long_queue_drops() {
    let mut list = List::new();
    for i in 0..20_000 {
        list.push(i);
    }
    drop(list);
}

#[test]
fn fifth_iter_mut_write_seen_by_peek() {
    let mut list = List::new();
    list.push(1);
    list.push(2);
    {
        let mut iter = list.iter_mut();
        if let Some(value) = iter.next() {
            *value = 9;
        }
    }
    assert_eq!(list.peek(), Some(&9));
    assert_eq!(list.pop(), Some(9));
    assert_eq!(list.pop(), Some(2));
}
