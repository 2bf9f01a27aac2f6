use vm_bridge::ledger::{Ledger, LoanError};

#[test]
fn two_shared_loans_coexist() {
    let mut l = Ledger::new();
    assert_eq!(l.try_borrow(100), Ok(()));
    assert_eq!(l.try_borrow(100), Ok(()));
}

#[test]
fn mutable_request_fails_frozen_while_shared_outstanding() {
    let mut l = Ledger::new();
    assert_eq!(l.try_borrow(100), Ok(()));
    assert_eq!(l.try_borrow_mut(100), Err(LoanError::Frozen(100)));
}

#[test]
fn second_mutable_request_fails_mutating() {
    let mut l = Ledger::new();
    assert_eq!(l.try_borrow_mut(100), Ok(()));
    assert_eq!(l.try_borrow_mut(100), Err(LoanError::Mutating(100)));
}

#[test]
fn shared_request_fails_mutating_while_mutable_outstanding() {
    let mut l = Ledger::new();
    assert_eq!(l.try_borrow_mut(100), Ok(()));
    assert_eq!(l.try_borrow(100), Err(LoanError::Mutating(100)));
}

#[test]
fn independent_addresses_do_not_conflict() {
    let mut l = Ledger::new();
    assert_eq!(l.try_borrow_mut(100), Ok(()));
    assert_eq!(l.try_borrow(200), Ok(()));
    assert_eq!(l.try_borrow_mut(300), Ok(()));
}

#[test]
fn settle_then_mutable_succeeds() {
    let mut l = Ledger::new();
    assert_eq!(l.try_borrow(100), Ok(()));
    l.settle(100);
    assert_eq!(l.try_borrow_mut(100), Ok(()));
}

#[test]
fn each_shared_loan_settles_individually() {
    let mut l = Ledger::new();
    assert_eq!(l.try_borrow(100), Ok(()));
    assert_eq!(l.try_borrow(100), Ok(()));
    l.settle(100);
    // one shared loan is still outstanding
    assert_eq!(l.try_borrow_mut(100), Err(LoanError::Frozen(100)));
    l.settle(100);
    assert_eq!(l.try_borrow_mut(100), Ok(()));
}

#[test]
fn settle_mut_then_either_kind_succeeds() {
    let mut l = Ledger::new();
    assert_eq!(l.try_borrow_mut(100), Ok(()));
    l.settle_mut(100);
    assert_eq!(l.try_borrow(100), Ok(()));
    l.settle(100);
    assert_eq!(l.try_borrow_mut(100), Ok(()));
}

#[test]
fn settle_absent_is_noop() {
    let mut l = Ledger::new();
    l.settle(700);
    l.settle_mut(700);
    assert_eq!(l.try_borrow_mut(700), Ok(()));
}

#[test]
fn settle_absent_leaves_unrelated_addresses_alone() {
    let mut l = Ledger::new();
    assert_eq!(l.try_borrow(900), Ok(()));
    assert_eq!(l.try_borrow_mut(901), Ok(()));
    l.settle(700);
    l.settle_mut(700);
    // the loans on 900 and 901 still stand
    assert_eq!(l.try_borrow_mut(900), Err(LoanError::Frozen(900)));
    assert_eq!(l.try_borrow(901), Err(LoanError::Mutating(901)));
}

#[test]
fn loan_error_reports_its_address() {
    assert_eq!(LoanError::Mutating(42).addr(), 42);
    assert_eq!(LoanError::Frozen(43).addr(), 43);
}

#[test]
fn loan_error_messages_name_the_condition() {
    assert_eq!(
        LoanError::Mutating(1).message(),
        "outstanding mutable loan exists for object"
    );
    assert_eq!(LoanError::Frozen(1).message(), "object is frozen");
}
