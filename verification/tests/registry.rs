use signal_relay::registry::{AlreadyJoined, Registry};

#[test]
fn new_registry_is_empty() {
    let registry: Registry<u32> = Registry::new();
    assert_eq!(registry.len(), 0);
    assert_eq!(registry.snapshot_names(), Vec::<String>::new());
    assert_eq!(registry.resolve("alice"), None);
    assert!(!registry.contains("alice"));
    assert_eq!(registry.entry(0), None);
}

#[test]
fn join_registers_the_name_with_its_handle() {
    let mut registry: Registry<u32> = Registry::new();
    assert_eq!(registry.join("alice".to_owned(), 1), Ok(()));
    assert_eq!(registry.join("bob".to_owned(), 2), Ok(()));
    assert_eq!(registry.len(), 2);
    assert_eq!(registry.resolve("alice"), Some(&1));
    assert_eq!(registry.resolve("bob"), Some(&2));
    assert_eq!(registry.resolve("carol"), None);
    assert!(registry.contains("bob"));
    assert_eq!(registry.entry(1), Some((&"bob".to_owned(), &2)));
    assert_eq!(registry.entry(2), None);
}

#[test]
fn join_with_a_registered_name_is_refused_and_changes_nothing() {
    let mut registry: Registry<u32> = Registry::new();
    assert_eq!(registry.join("alice".to_owned(), 1), Ok(()));
    assert_eq!(registry.join("alice".to_owned(), 2), Err(AlreadyJoined));
    assert_eq!(registry.len(), 1);
    assert_eq!(registry.resolve("alice"), Some(&1));
    assert_eq!(registry.snapshot_names(), vec!["alice".to_owned()]);
}

#[test]
fn of_two_joins_under_one_name_exactly_one_succeeds_in_either_order() {
    let mut first_wins: Registry<u32> = Registry::new();
    let a = first_wins.join("alice".to_owned(), 1);
    let b = first_wins.join("alice".to_owned(), 2);
    assert_eq!((a, b), (Ok(()), Err(AlreadyJoined)));
    assert_eq!(first_wins.snapshot_names(), vec!["alice".to_owned()]);
    assert_eq!(first_wins.resolve("alice"), Some(&1));

    let mut second_wins: Registry<u32> = Registry::new();
    let b = second_wins.join("alice".to_owned(), 2);
    let a = second_wins.join("alice".to_owned(), 1);
    assert_eq!((a, b), (Err(AlreadyJoined), Ok(())));
    assert_eq!(second_wins.snapshot_names(), vec!["alice".to_owned()]);
    assert_eq!(second_wins.resolve("alice"), Some(&2));
}

#[test]
fn names_are_compared_letter_for_letter() {
    let mut registry: Registry<u32> = Registry::new();
    assert_eq!(registry.join("alice".to_owned(), 1), Ok(()));
    assert_eq!(registry.join("Alice".to_owned(), 2), Ok(()));
    assert_eq!(registry.join("alice ".to_owned(), 3), Ok(()));
    assert_eq!(registry.join("".to_owned(), 4), Ok(()));
    assert_eq!(registry.join("".to_owned(), 5), Err(AlreadyJoined));
    assert_eq!(registry.resolve("Alice"), Some(&2));
    assert_eq!(registry.resolve(""), Some(&4));
}

#[test]
fn leave_removes_the_entry_and_keeps_the_order_of_the_rest() {
    let mut registry: Registry<u32> = Registry::new();
    registry.join("alice".to_owned(), 1).unwrap();
    registry.join("bob".to_owned(), 2).unwrap();
    registry.join("carol".to_owned(), 3).unwrap();
    registry.leave("bob");
    assert_eq!(
        registry.snapshot_names(),
        vec!["alice".to_owned(), "carol".to_owned()]
    );
    assert_eq!(registry.resolve("bob"), None);
    assert_eq!(registry.resolve("alice"), Some(&1));
    assert_eq!(registry.resolve("carol"), Some(&3));
}

#[test]
fn leave_of_an_absent_name_changes_nothing() {
    let mut registry: Registry<u32> = Registry::new();
    registry.join("alice".to_owned(), 1).unwrap();
    registry.leave("ghost");
    assert_eq!(registry.snapshot_names(), vec!["alice".to_owned()]);
    assert_eq!(registry.resolve("alice"), Some(&1));
}

#[test]
fn leaving_twice_is_leaving_once() {
    let mut registry: Registry<u32> = Registry::new();
    registry.join("alice".to_owned(), 1).unwrap();
    registry.join("bob".to_owned(), 2).unwrap();
    registry.leave("alice");
    registry.leave("alice");
    assert!(!registry.contains("alice"));
    assert_eq!(registry.snapshot_names(), vec!["bob".to_owned()]);
}

#[test]
fn a_name_that_left_can_join_again() {
    let mut registry: Registry<u32> = Registry::new();
    assert_eq!(registry.join("alice".to_owned(), 1), Ok(()));
    registry.leave("alice");
    assert_eq!(registry.join("alice".to_owned(), 2), Ok(()));
    assert_eq!(registry.resolve("alice"), Some(&2));
    assert_eq!(registry.len(), 1);
}

#[test]
fn snapshot_lists_names_in_the_order_of_joining() {
    let mut registry: Registry<u32> = Registry::new();
    registry.join("zed".to_owned(), 1).unwrap();
    registry.join("alice".to_owned(), 2).unwrap();
    registry.join("mike".to_owned(), 3).unwrap();
    assert_eq!(
        registry.snapshot_names(),
        vec!["zed".to_owned(), "alice".to_owned(), "mike".to_owned()]
    );
    registry.leave("zed");
    registry.join("zed".to_owned(), 4).unwrap();
    assert_eq!(
        registry.snapshot_names(),
        vec!["alice".to_owned(), "mike".to_owned(), "zed".to_owned()]
    );
}
