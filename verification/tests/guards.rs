use vm_bridge::guard::{Ref, RefMut, VmGuard};
use vm_bridge::ledger::{Ledger, LoanError};

#[test]
fn two_refs_on_one_address_coexist() {
    let mut g = VmGuard::new();
    let r1 = Ref::new(&mut g, 100).unwrap();
    let r2 = Ref::new(&mut g, 100).unwrap();
    assert_eq!(r1.addr(), 100);
    assert_eq!(r2.addr(), 100);
}

#[test]
fn refmut_while_ref_outstanding_fails_frozen() {
    let mut g = VmGuard::new();
    let _r = Ref::new(&mut g, 100).unwrap();
    match RefMut::new(&mut g, 100) {
        Err(LoanError::Frozen(a)) => assert_eq!(a, 100),
        _ => panic!("a mutable loan was granted beside an immutable one"),
    }
}

#[test]
fn second_refmut_fails_mutating() {
    let mut g = VmGuard::new();
    let _m = RefMut::new(&mut g, 100).unwrap();
    match RefMut::new(&mut g, 100) {
        Err(LoanError::Mutating(a)) => assert_eq!(a, 100),
        _ => panic!("a second mutable loan was granted"),
    }
}

#[test]
fn release_removes_exactly_its_own_loan() {
    let mut g = VmGuard::new();
    let r1 = Ref::new(&mut g, 100).unwrap();
    let _r2 = Ref::new(&mut g, 100).unwrap();
    r1.release(&mut g);
    // one immutable loan still stands
    assert!(matches!(RefMut::new(&mut g, 100), Err(LoanError::Frozen(100))));
}

#[test]
fn after_all_releases_refmut_succeeds() {
    let mut g = VmGuard::new();
    let r1 = Ref::new(&mut g, 100).unwrap();
    let r2 = Ref::new(&mut g, 100).unwrap();
    r1.release(&mut g);
    r2.release(&mut g);
    let m = RefMut::new(&mut g, 100).unwrap();
    assert_eq!(m.addr(), 100);
}

#[test]
fn sequential_refmut_requests_on_one_ledger() {
    // Two requests for the same address arrive in sequence, as from two
    // nested native calls drawing on the same ledger: the first succeeds,
    // the second fails while the first is outstanding, and succeeds once
    // the first is released.
    let mut g = VmGuard::new();
    let first = RefMut::new(&mut g, 500).unwrap();
    assert!(matches!(RefMut::new(&mut g, 500), Err(LoanError::Mutating(500))));
    first.release(&mut g);
    let second = RefMut::new(&mut g, 500).unwrap();
    assert_eq!(second.addr(), 500);
}

#[test]
fn two_guard_roots_clash_on_one_address_in_sequence() {
    // Two guard roots from different call contexts draw on the thread's one
    // ledger in sequence: the first root's mutable loan succeeds; while it
    // is outstanding, the second root's request on the same address fails
    // with Mutating; once the first loan is released, it succeeds.
    let ledger = Ledger::new();
    let mut first_root = VmGuard::from_ledger(ledger);
    let first = RefMut::new(&mut first_root, 800).unwrap();

    let mut second_root = VmGuard::from_ledger(first_root.into_ledger());
    assert!(matches!(
        RefMut::new(&mut second_root, 800),
        Err(LoanError::Mutating(800))
    ));
    first.release(&mut second_root);
    let second = RefMut::new(&mut second_root, 800).unwrap();
    assert_eq!(second.addr(), 800);
}

#[test]
fn refmut_release_reopens_for_either_kind() {
    let mut g = VmGuard::new();
    let m = RefMut::new(&mut g, 100).unwrap();
    m.release(&mut g);
    let r = Ref::new(&mut g, 100).unwrap();
    r.release(&mut g);
    assert!(RefMut::new(&mut g, 100).is_ok());
}
