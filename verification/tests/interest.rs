use motor_poll::interest::Interest;

#[test]
fn readable_is_readable_only() {
    let interest = Interest::readable();
    assert!(interest.is_readable());
    assert!(!interest.is_writable());
}

#[test]
fn writable_is_writable_only() {
    let interest = Interest::writable();
    assert!(!interest.is_readable());
    assert!(interest.is_writable());
}

#[test]
fn union_holds_both() {
    let both = Interest::readable().union(Interest::writable());
    assert!(both.is_readable());
    assert!(both.is_writable());
}

#[test]
fn union_with_itself_changes_nothing() {
    let readable = Interest::readable();
    assert_eq!(readable.union(readable), readable);
    let writable = Interest::writable();
    assert_eq!(writable.union(writable), writable);
}

#[test]
fn union_is_commutative() {
    let readable = Interest::readable();
    let writable = Interest::writable();
    assert_eq!(readable.union(writable), writable.union(readable));
}

#[test]
fn remove_leaves_the_rest() {
    let both = Interest::readable().union(Interest::writable());
    assert_eq!(both.remove(Interest::readable()), Some(Interest::writable()));
    assert_eq!(both.remove(Interest::writable()), Some(Interest::readable()));
}

#[test]
fn remove_of_everything_is_none() {
    let both = Interest::readable().union(Interest::writable());
    assert_eq!(both.remove(both), None);
    assert_eq!(Interest::readable().remove(Interest::readable()), None);
    assert_eq!(Interest::writable().remove(both), None);
}

#[test]
fn remove_of_what_is_absent_changes_nothing() {
    assert_eq!(
        Interest::readable().remove(Interest::writable()),
        Some(Interest::readable())
    );
    assert_eq!(
        Interest::writable().remove(Interest::readable()),
        Some(Interest::writable())
    );
}
