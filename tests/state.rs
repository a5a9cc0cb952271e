use tomb::aes256cbc::{Config, Key};
use tomb::state::StatefulList;
use tomb::tomb::AES256Secret;

fn secrets(n: usize) -> Vec<AES256Secret> {
    let key = Key::from_password(b"list", &Config::from_vec(&[1, 1, 1]));
    (0..n)
        .map(|i| AES256Secret::new(format!("s{}", i), vec![i as u8], key.duplicate()))
        .collect()
}

#[test]
fn selection_wraps_both_ways() {
    let mut list = StatefulList::with_items(secrets(3));
    assert!(list.current().is_none());
    list.next();
    assert_eq!(list.selected, Some(0));
    list.next();
    list.next();
    assert_eq!(list.selected, Some(2));
    assert_eq!(list.current().unwrap().path, "s2");
    list.next();
    assert_eq!(list.selected, Some(0));
    list.previous();
    assert_eq!(list.selected, Some(2));
    list.previous();
    assert_eq!(list.selected, Some(1));
    list.unselect();
    assert!(list.current().is_none());
    list.previous();
    assert_eq!(list.selected, Some(0));
}

#[test]
fn selection_past_the_end_has_no_current() {
    let mut list = StatefulList::with_items(secrets(3));
    list.selected = Some(2);
    list.update(secrets(1));
    assert_eq!(list.selected, Some(2));
    assert!(list.current().is_none());
    let empty = StatefulList::empty();
    assert!(empty.items.is_empty());
}
