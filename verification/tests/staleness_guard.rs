use inplace_iter::staleness_guard::StalenessGuard;

#[test]
fn guard_admits_only_the_newest_stamp() {
    let mut guard = StalenessGuard::new();
    let first = guard.issue();
    assert!(guard.check(&first));
    let second = guard.issue();
    assert!(!guard.check(&first));
    assert!(guard.check(&second));
}

#[test]
fn guard_admits_nothing_after_an_invalidation() {
    let mut guard = StalenessGuard::new();
    let stamp = guard.issue();
    guard.invalidate_previous();
    assert!(!guard.check(&stamp));
    // invalidating twice is harmless
    guard.invalidate_previous();
    assert!(!guard.check(&stamp));
    let next = guard.issue();
    assert!(guard.check(&next));
    assert!(!guard.check(&stamp));
}

#[test]
fn guard_invalidation_before_the_first_stamp_is_harmless() {
    let mut guard = StalenessGuard::new();
    guard.invalidate_previous();
    let stamp = guard.issue();
    assert!(guard.check(&stamp));
}
