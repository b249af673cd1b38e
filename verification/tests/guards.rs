use refcounted::arc::{ThreadSafe, MAX_REFCOUNT};
use refcounted::heap::CountPolicy;
use refcounted::rc::SingleOwner;

#[test]
fn thread_safe_guard_allows_ordinary_counts() {
    assert!(ThreadSafe::check_increment(1));
    assert!(ThreadSafe::check_increment(2));
    assert!(ThreadSafe::check_increment(MAX_REFCOUNT));
}

#[test]
fn thread_safe_guard_trips_beyond_soft_ceiling() {
    // Past the soft ceiling a running engine aborts instead of letting the
    // counter wrap towards zero.
    assert!(!ThreadSafe::check_increment(MAX_REFCOUNT + 1));
    assert!(!ThreadSafe::check_increment(usize::MAX));
}

#[test]
fn single_owner_guard_refuses_extremes() {
    assert!(!SingleOwner::check_increment(0));
    assert!(!SingleOwner::check_increment(usize::MAX));
    assert!(SingleOwner::check_increment(1));
    assert!(SingleOwner::check_increment(usize::MAX - 1));
}
