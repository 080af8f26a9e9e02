use mobi::mailbox::PendingOpenMailbox;

#[test]
fn new_mailbox_is_empty() {
    let mut m = PendingOpenMailbox::new();
    assert!(!m.is_pending());
    assert_eq!(m.take(), None);
}

#[test]
fn store_then_take_returns_path() {
    let mut m = PendingOpenMailbox::new();
    m.store("/tmp/a.md".to_string());
    assert!(m.is_pending());
    assert_eq!(m.take(), Some("/tmp/a.md".to_string()));
    assert!(!m.is_pending());
}

#[test]
fn take_twice_returns_value_once() {
    let mut m = PendingOpenMailbox::new();
    m.store("/tmp/a.md".to_string());
    assert_eq!(m.take(), Some("/tmp/a.md".to_string()));
    assert_eq!(m.take(), None);
}

#[test]
fn second_store_overwrites_first() {
    let mut m = PendingOpenMailbox::new();
    m.store("/tmp/a.md".to_string());
    m.store("/tmp/b.md".to_string());
    assert_eq!(m.take(), Some("/tmp/b.md".to_string()));
    assert_eq!(m.take(), None);
}

#[test]
fn empty_after_take_until_next_store() {
    let mut m = PendingOpenMailbox::new();
    m.store("/tmp/a.md".to_string());
    assert_eq!(m.take(), Some("/tmp/a.md".to_string()));
    assert!(!m.is_pending());
    assert_eq!(m.take(), None);
    assert_eq!(m.take(), None);
    m.store("/tmp/c.txt".to_string());
    assert_eq!(m.take(), Some("/tmp/c.txt".to_string()));
    assert_eq!(m.take(), None);
}
