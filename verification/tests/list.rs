use linked_list::List;

#[test]
fn push_pop() {
    let mut list = List::new();

    list.push("foo");
    list.push("bar");
    assert_eq!(list.len(), 2);

    assert_eq!(list.pop(), Some("bar"));
    assert_eq!(list.pop(), Some("foo"));
    assert_eq!(list.pop(), None);
    assert_eq!(list.len(), 0);
}

#[test]
fn peek() {
    let mut list = List::new();
    assert_eq!(list.peek(), None);

    list.push(42);
    assert_eq!(list.peek(), Some(&42));
}

#[test]
fn append() {
    let mut list = List::new();

    list.append("foo");
    list.append("bar");
    list.append("baz");
    assert_eq!(list.len(), 3);
    assert_eq!(list.pop(), Some("foo"));
    assert_eq!(list.pop(), Some("bar"));
    assert_eq!(list.pop(), Some("baz"));
}

#[test]
fn last() {
    let mut list = List::new();
    assert_eq!(list.last(), None);
    list.push("foo");
    list.push("bar");
    assert_eq!(list.last(), Some(&"foo"));
}

#[test]
fn into_iter() {
    let mut list = List::new();
    list.push("baz");
    list.push("bar");
    list.push("foo");

    let items: Vec<&str> = list.into_iter().collect();
    assert_eq![items, vec!["foo", "bar", "baz"]];
}

#[test]
fn big_drop() {
    let mut list = List::new();
    for i in 1..100_000 {
        list.push(i);
    }
}
