use tracked_cell::reference::TrackedRef;
use tracked_cell::reference::TrackedRefSet;

#[derive(Debug, PartialEq)]
struct Wrapper(i32);

#[test]
fn reference_test_new() {
    let t = TrackedRef::new(5);

    assert!(t.is_fresh());
    assert_eq!(t.peek(), &5);
}

#[test]
fn reference_test_set_same_val() {
    let mut t = TrackedRef::new(5);

    // Reset to stale
    t.get();

    // Same value - still stale
    t.set(5);

    assert!(!t.is_fresh());
}

#[test]
fn reference_test_set_different_val() {
    let mut t = TrackedRef::new(5);

    // Reset to stale
    t.get();

    // Different value - fresh again
    t.set(6);

    assert!(t.is_fresh());
    assert_eq!(t.peek(), &6);
}

#[test]
fn reference_test_get() {
    let mut t = TrackedRef::new(5);

    {
        let v: &i32 = t.get();

        assert_eq!(v, &5);
    }

    assert!(!t.is_fresh());
}

#[test]
fn test_get_mut() {
    let mut t = TrackedRef::new(Wrapper(777));

    // Mark as stale
    t.get();

    // Modify wrapped value, marking as fresh again
    t.get_mut().0 = 888;

    assert!(t.is_fresh());
    assert_eq!(t.peek(), &Wrapper(888));
}

#[test]
fn reference_test_get_if_fresh() {
    let mut t = TrackedRef::new("hello");

    {
        let v = t.get_if_fresh();

        assert!(v.is_some());
        assert_eq!(v.unwrap(), &"hello");
    }

    assert!(!t.is_fresh());
}

#[test]
fn reference_test_get_if_fresh_stale() {
    let mut t = TrackedRef::new("hello");

    // Mark as stale
    t.get();

    let v = t.get_if_fresh();

    assert!(v.is_none());
}

#[test]
fn reference_test_peek() {
    let t = TrackedRef::new(777);

    let v: &i32 = t.peek();

    assert!(t.is_fresh());
    assert_eq!(v, &777);
}

#[test]
fn reference_test_is_fresh() {
    let t = TrackedRef { fresh: true, val: 5 };

    assert!(t.is_fresh());
}

#[test]
fn reference_test_is_stale() {
    let t = TrackedRef { fresh: false, val: 5 };

    assert!(!t.is_fresh());
}

#[test]
fn reference_get_mut_without_write_marks_fresh() {
    let mut t = TrackedRef::new(5);

    // Reset to stale
    t.get();
    assert!(!t.is_fresh());

    // Taking the exclusive reference alone marks fresh
    let _v: &mut i32 = t.get_mut();

    assert!(t.is_fresh());
    assert_eq!(t.peek(), &5);
}

#[test]
fn reference_set_same_while_fresh_stays_fresh() {
    let mut t = TrackedRef::new(9);

    t.set(9);

    assert!(t.is_fresh());
    assert_eq!(t.peek(), &9);
}

#[test]
fn reference_clone_keeps_value_and_fresh_flag() {
    let t = TrackedRef::new(String::from("abc"));

    let c = t.clone();

    assert!(c.is_fresh());
    assert!(t.is_fresh());
    assert_eq!(c.peek(), &String::from("abc"));
}

#[test]
fn reference_clone_keeps_stale_flag() {
    let mut t = TrackedRef::new(String::from("abc"));

    // Reset to stale
    t.get();

    let c = t.clone();

    assert!(!c.is_fresh());
    assert_eq!(c.peek(), &String::from("abc"));
}

#[test]
fn reference_scenario_full_lifecycle() {
    let mut t = TrackedRef::new(5);
    assert!(t.is_fresh());
    assert_eq!(t.peek(), &5);

    {
        let v: &i32 = t.get();
        assert_eq!(v, &5);
    }
    assert!(!t.is_fresh());

    t.set(5);
    assert!(!t.is_fresh());

    t.set(6);
    assert!(t.is_fresh());
    assert_eq!(t.peek(), &6);

    assert_eq!(t.get_if_fresh(), Some(&6));
    assert!(!t.is_fresh());

    assert_eq!(t.get_if_fresh(), None);
}
