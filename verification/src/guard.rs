//! Guard roots and loan tokens.
//!
//! A [`VmGuard`] is the per-call owner of one [`Ledger`]; [`Ref`] and
//! [`RefMut`] are acquisition tokens obtained from it. A token grants
//! access to the buffer at one address for as long as it is held, and is
//! settled by handing it back — ownership transfer makes exactly one
//! release per acquisition a matter of construction, not of checking.

use crate::ledger::{Addr, Ledger, LedgerModel, LoanError};
use vstd::prelude::*;

verus! {

/// The guard root: owns the ledger that arbitrates loans for one reentrant
/// native call. Loans acquired from it must not outlive it.
pub struct VmGuard {
    ledger: Ledger,
}

impl View for VmGuard {
    type V = LedgerModel;

    closed spec fn view(&self) -> LedgerModel {
        self.ledger@
    }
}

impl VmGuard {
    /// A fresh guard root whose ledger holds no loan.
    pub fn new() -> (g: VmGuard)
        ensures
            g@ == LedgerModel::empty(),
            g@.inv(),
    {
        VmGuard { ledger: Ledger::new() }
    }

    /// A guard root that takes over an existing ledger, so that successive
    /// reentrant calls on one thread arbitrate their loans against the same
    /// outstanding state.
    pub fn from_ledger(ledger: Ledger) -> (g: VmGuard)
        ensures
            g@ == ledger@,
    {
        VmGuard { ledger }
    }

    /// Hands the ledger back when this root is released, outstanding loans
    /// included, so the next root can take it over.
    pub fn into_ledger(self) -> (l: Ledger)
        ensures
            l@ == self@,
    {
        self.ledger
    }
}

/// A shared loan token: read access to the VM-owned buffer at one address.
/// Any number of `Ref`s may cover the same address at once.
pub struct Ref {
    addr: Addr,
}

impl Ref {
    /// The address the loan covers.
    pub closed spec fn address(self) -> Addr {
        self.addr
    }

    /// Acquires a shared loan on `addr`. Succeeds — registering exactly one
    /// more immutable loan — unless a mutable loan is outstanding on `addr`,
    /// in which case it fails at once with `Mutating(addr)` and the ledger
    /// is unchanged. No blocking, no retry.
    pub fn new(guard: &mut VmGuard, addr: Addr) -> (r: Result<Ref, LoanError>)
        ensures
            old(guard)@.shared_ok(addr) ==> (r matches Ok(t) && t.address() == addr)
                && final (guard)@ == old(guard)@.grant_shared(addr),
            !old(guard)@.shared_ok(addr) ==> r == Err::<Ref, LoanError>(LoanError::Mutating(addr))
                && final (guard)@ == old(guard)@,
            old(guard)@.inv() ==> final (guard)@.inv(),
    {
        match guard.ledger.try_borrow(addr) {
            Ok(()) => Ok(Ref { addr }),
            Err(e) => Err(e),
        }
    }

    /// The address the loan covers.
    pub fn addr(&self) -> (a: Addr)
        ensures
            a == self.address(),
    {
        self.addr
    }

    /// Settles this loan: removes exactly this token's own entry from the
    /// guard's ledger. Consuming the token makes a second release
    /// impossible by construction.
    pub fn release(self, guard: &mut VmGuard)
        ensures
            final (guard)@ == old(guard)@.settle_shared(self.address()),
            old(guard)@.inv() ==> final (guard)@.inv(),
    {
        guard.ledger.settle(self.addr);
    }
}

/// An exclusive loan token: read-write access to the VM-owned buffer at one
/// address. At most one `RefMut` covers an address, and never beside a
/// [`Ref`].
pub struct RefMut {
    addr: Addr,
}

impl RefMut {
    /// The address the loan covers.
    pub closed spec fn address(self) -> Addr {
        self.addr
    }

    /// Acquires the mutable loan on `addr`. Succeeds only if no loan of
    /// either kind is outstanding on `addr`; otherwise it fails at once —
    /// with `Mutating(addr)` if a mutable loan is outstanding, else with
    /// `Frozen(addr)` — and the ledger is unchanged. No blocking, no retry.
    pub fn new(guard: &mut VmGuard, addr: Addr) -> (r: Result<RefMut, LoanError>)
        ensures
            old(guard)@.exclusive_ok(addr) ==> (r matches Ok(t) && t.address() == addr)
                && final (guard)@ == old(guard)@.grant_exclusive(addr),
            !old(guard)@.shared_ok(addr) ==> r == Err::<RefMut, LoanError>(
                LoanError::Mutating(addr),
            ) && final (guard)@ == old(guard)@,
            old(guard)@.shared_ok(addr) && old(guard)@.shared.count(addr) > 0 ==> r == Err::<
                RefMut,
                LoanError,
            >(LoanError::Frozen(addr)) && final (guard)@ == old(guard)@,
            old(guard)@.inv() ==> final (guard)@.inv(),
    {
        match guard.ledger.try_borrow_mut(addr) {
            Ok(()) => Ok(RefMut { addr }),
            Err(e) => Err(e),
        }
    }

    /// The address the loan covers.
    pub fn addr(&self) -> (a: Addr)
        ensures
            a == self.address(),
    {
        self.addr
    }

    /// Settles the mutable loan: removes exactly this token's own entry
    /// from the guard's ledger. Consuming the token makes a second release
    /// impossible by construction.
    pub fn release(self, guard: &mut VmGuard)
        ensures
            final (guard)@ == old(guard)@.settle_exclusive(self.address()),
            old(guard)@.inv() ==> final (guard)@.inv(),
    {
        guard.ledger.settle_mut(self.addr);
    }
}

} // verus!
