//! The dynamic borrow ledger.
//!
//! Native code may hold a raw view into a VM-owned buffer that the VM's own
//! access control does not protect. The ledger provides shared/exclusive
//! borrow checking at runtime for that surface: per raw address it records
//! the outstanding immutable loans (any number may coexist) and whether a
//! mutable loan is outstanding (at most one, and never beside an immutable
//! one). Acquisition is strictly non-blocking: a conflicting request fails
//! at once with a [`LoanError`].

use vstd::multiset::Multiset;
use vstd::prelude::*;

verus! {

broadcast use
    vstd::multiset::group_multiset_axioms,
    vstd::multiset::group_multiset_properties,
    vstd::seq_lib::group_to_multiset_ensures;

/// The identity of a VM-owned buffer: its raw memory location as a plain
/// integer. Address identity, not language-level value identity, is what the
/// ledger arbitrates.
pub type Addr = usize;

/// Why a loan could not be granted. Always recoverable by the caller; the
/// ledger never blocks and never retries.
#[derive(Clone, Copy, Debug, PartialEq, Eq, Structural)]
pub enum LoanError {
    /// A mutable loan is outstanding on the address.
    Mutating(Addr),
    /// An immutable loan is outstanding on the address, so a mutable loan
    /// cannot be granted.
    Frozen(Addr),
}

impl LoanError {
    /// The address whose outstanding loan caused the failure.
    pub open spec fn address(self) -> Addr {
        match self {
            LoanError::Mutating(a) => a,
            LoanError::Frozen(a) => a,
        }
    }

    /// The address whose outstanding loan caused the failure.
    pub fn addr(&self) -> (a: Addr)
        ensures
            a == self.address(),
    {
        match self {
            LoanError::Mutating(a) => *a,
            LoanError::Frozen(a) => *a,
        }
    }

    /// A human-readable account of the failure; the address it concerns is
    /// reported by [`LoanError::addr`].
    pub fn message(&self) -> (m: &'static str)
        ensures
            self is Mutating ==> m@ == "outstanding mutable loan exists for object"@,
            self is Frozen ==> m@ == "object is frozen"@,
    {
        match self {
            LoanError::Mutating(_) => "outstanding mutable loan exists for object",
            LoanError::Frozen(_) => "object is frozen",
        }
    }
}

/// The mathematical content of a [`Ledger`]: the outstanding immutable loans
/// as a multiset of addresses (each acquisition is tracked individually and
/// must be settled individually), and the outstanding mutable loans.
pub struct LedgerModel {
    /// Outstanding immutable loans, with multiplicity.
    pub shared: Multiset<Addr>,
    /// Outstanding mutable loans; a well-formed ledger holds each address at
    /// most once here.
    pub exclusive: Multiset<Addr>,
}

impl LedgerModel {
    /// No loan of either kind on any address.
    pub open spec fn empty() -> LedgerModel {
        LedgerModel { shared: Multiset::empty(), exclusive: Multiset::empty() }
    }

    /// The ledger's invariant: an address has zero or more immutable loans,
    /// XOR exactly one mutable loan — never both kinds, never two mutable.
    pub open spec fn inv(self) -> bool {
        forall|a: Addr|
            #![trigger self.exclusive.count(a)]
            self.exclusive.count(a) > 0 ==> self.exclusive.count(a) == 1 && self.shared.count(a)
                == 0
    }

    /// An immutable loan may be granted on `a`: no mutable loan is
    /// outstanding there.
    pub open spec fn shared_ok(self, a: Addr) -> bool {
        self.exclusive.count(a) == 0
    }

    /// A mutable loan may be granted on `a`: no loan of either kind is
    /// outstanding there.
    pub open spec fn exclusive_ok(self, a: Addr) -> bool {
        self.exclusive.count(a) == 0 && self.shared.count(a) == 0
    }

    /// The ledger after one more immutable loan on `a`.
    pub open spec fn grant_shared(self, a: Addr) -> LedgerModel {
        LedgerModel { shared: self.shared.insert(a), exclusive: self.exclusive }
    }

    /// The ledger after the mutable loan on `a` is granted.
    pub open spec fn grant_exclusive(self, a: Addr) -> LedgerModel {
        LedgerModel { shared: self.shared, exclusive: self.exclusive.insert(a) }
    }

    /// The ledger after one immutable loan on `a` is settled; identical when
    /// none is outstanding.
    pub open spec fn settle_shared(self, a: Addr) -> LedgerModel {
        LedgerModel { shared: self.shared.remove(a), exclusive: self.exclusive }
    }

    /// The ledger after the mutable loan on `a` is settled; identical when
    /// none is outstanding.
    pub open spec fn settle_exclusive(self, a: Addr) -> LedgerModel {
        LedgerModel { shared: self.shared, exclusive: self.exclusive.remove(a) }
    }
}

/// Per-address bookkeeping of outstanding loans on VM-owned buffers. One
/// ledger exists per guard root; loans must not outlive it.
pub struct Ledger {
    immutable_loans: Vec<Addr>,
    mutable_loans: Vec<Addr>,
}

impl View for Ledger {
    type V = LedgerModel;

    closed spec fn view(&self) -> LedgerModel {
        LedgerModel {
            shared: self.immutable_loans@.to_multiset(),
            exclusive: self.mutable_loans@.to_multiset(),
        }
    }
}

/// Whether `a` occurs in `v`.
fn contains_addr(v: &Vec<Addr>, a: Addr) -> (present: bool)
    ensures
        present == (v@.to_multiset().count(a) > 0),
{
    let n = v.len();
    let mut i: usize = 0;
    while i < n
        invariant
            n == v@.len(),
            0 <= i <= n,
            forall|k: int| 0 <= k < i ==> v@[k] != a,
        decreases n - i,
    {
        if v[i] == a {
            assert(v@.contains(a)) by {
                assert(v@[i as int] == a);
            }
            return true;
        }
        i += 1;
    }
    assert(!v@.contains(a));
    false
}

/// Removes one occurrence of `a` from `v`; leaves `v` unchanged when `a` is
/// absent.
fn remove_addr(v: &mut Vec<Addr>, a: Addr)
    ensures
        final (v)@.to_multiset() == old(v)@.to_multiset().remove(a),
{
    let n = v.len();
    let mut i: usize = 0;
    while i < n
        invariant
            *v == *old(v),
            n == v@.len(),
            0 <= i <= n,
            forall|k: int| 0 <= k < i ==> v@[k] != a,
        decreases n - i,
    {
        if v[i] == a {
            v.remove(i);
            return;
        }
        i += 1;
    }
    assert(!old(v)@.contains(a));
    assert(old(v)@.to_multiset().remove(a) =~= old(v)@.to_multiset());
}

impl Ledger {
    /// A fresh ledger with no outstanding loan.
    pub fn new() -> (l: Ledger)
        ensures
            l@ == LedgerModel::empty(),
            l@.inv(),
    {
        let l = Ledger { immutable_loans: Vec::new(), mutable_loans: Vec::new() };
        proof {
            assert(l@.shared =~= Multiset::<Addr>::empty());
            assert(l@.exclusive =~= Multiset::<Addr>::empty());
        }
        l
    }

    /// Registers an immutable loan on `p` unless a mutable loan is
    /// outstanding there, in which case it fails with `Mutating(p)` and the
    /// ledger is unchanged.
    pub fn try_borrow(&mut self, p: Addr) -> (r: Result<(), LoanError>)
        ensures
            old(self)@.shared_ok(p) ==> r == Ok::<(), LoanError>(()) && final (self)@ == old(
                self)@.grant_shared(p),
            !old(self)@.shared_ok(p) ==> r == Err::<(), LoanError>(LoanError::Mutating(p))
                && final (self)@ == old(self)@,
            old(self)@.inv() ==> final (self)@.inv(),
    {
        proof {
            if self@.inv() {
                lemma_operations_preserve_inv(self@, p);
            }
        }
        if contains_addr(&self.mutable_loans, p) {
            return Err(LoanError::Mutating(p));
        }
        self.immutable_loans.push(p);
        Ok(())
    }

    /// Settles one immutable loan on `p`; a safe no-op when none is
    /// outstanding. Mutable loans are never affected.
    pub fn settle(&mut self, p: Addr)
        ensures
            final (self)@ == old(self)@.settle_shared(p),
            old(self)@.inv() ==> final (self)@.inv(),
    {
        proof {
            if self@.inv() {
                lemma_operations_preserve_inv(self@, p);
            }
        }
        remove_addr(&mut self.immutable_loans, p);
    }

    /// Registers the mutable loan on `p` if no loan of either kind is
    /// outstanding there; otherwise fails — with `Mutating(p)` when a mutable
    /// loan is outstanding, else with `Frozen(p)` — leaving the ledger
    /// unchanged.
    pub fn try_borrow_mut(&mut self, p: Addr) -> (r: Result<(), LoanError>)
        ensures
            old(self)@.exclusive_ok(p) ==> r == Ok::<(), LoanError>(()) && final (self)@ == old(
                self)@.grant_exclusive(p),
            !old(self)@.shared_ok(p) ==> r == Err::<(), LoanError>(LoanError::Mutating(p))
                && final (self)@ == old(self)@,
            old(self)@.shared_ok(p) && old(self)@.shared.count(p) > 0 ==> r == Err::<(), LoanError>(
                LoanError::Frozen(p)) && final (self)@ == old(self)@,
            old(self)@.inv() ==> final (self)@.inv(),
    {
        proof {
            if self@.inv() {
                lemma_operations_preserve_inv(self@, p);
            }
        }
        if contains_addr(&self.mutable_loans, p) {
            return Err(LoanError::Mutating(p));
        }
        if contains_addr(&self.immutable_loans, p) {
            return Err(LoanError::Frozen(p));
        }
        self.mutable_loans.push(p);
        Ok(())
    }

    /// Settles the mutable loan on `p`; a safe no-op when none is
    /// outstanding. Immutable loans are never affected.
    pub fn settle_mut(&mut self, p: Addr)
        ensures
            final (self)@ == old(self)@.settle_exclusive(p),
            old(self)@.inv() ==> final (self)@.inv(),
    {
        proof {
            if self@.inv() {
                lemma_operations_preserve_inv(self@, p);
            }
        }
        remove_addr(&mut self.mutable_loans, p);
    }
}

/// Granting a loan that the ledger allows keeps the ledger's invariant, and
/// settling a loan of either kind always keeps it.
pub proof fn lemma_operations_preserve_inv(m: LedgerModel, a: Addr)
    requires
        m.inv(),
    ensures
        m.shared_ok(a) ==> m.grant_shared(a).inv(),
        m.exclusive_ok(a) ==> m.grant_exclusive(a).inv(),
        m.settle_shared(a).inv(),
        m.settle_exclusive(a).inv(),
{
}

/// Loan arbitration on one address: while no mutable loan is outstanding on
/// `a`, any number of immutable loans coexist there — granting one more keeps
/// `a` open to further immutable loans; a granted immutable loan makes every
/// mutable request on `a` fail as `Frozen(a)`; and a granted mutable loan
/// makes every further request on `a` of either kind fail as `Mutating(a)`.
pub proof fn lemma_loan_exclusion(m: LedgerModel, a: Addr)
    requires
        m.inv(),
    ensures
        m.shared_ok(a) ==> m.grant_shared(a).shared_ok(a),
        m.shared_ok(a) ==> !m.grant_shared(a).exclusive_ok(a) && m.grant_shared(a).shared_ok(a)
            && m.grant_shared(a).shared.count(a) > 0,
        m.exclusive_ok(a) ==> !m.grant_exclusive(a).shared_ok(a) && !m.grant_exclusive(
            a,
        ).exclusive_ok(a),
{
}

/// Settling releases exactly the settled loan: on the settled address one
/// immutable loan (or the one mutable loan) goes away, every other address
/// keeps both of its loan counts, and the other loan kind is untouched.
pub proof fn lemma_settle_exact(m: LedgerModel, a: Addr, b: Addr)
    ensures
        m.shared.count(a) > 0 ==> m.settle_shared(a).shared.count(a) == m.shared.count(a) - 1,
        m.exclusive.count(a) > 0 ==> m.settle_exclusive(a).exclusive.count(a) == m.exclusive.count(
            a,
        ) - 1,
        b != a ==> m.settle_shared(a).shared.count(b) == m.shared.count(b),
        b != a ==> m.settle_exclusive(a).exclusive.count(b) == m.exclusive.count(b),
        m.settle_shared(a).exclusive == m.exclusive,
        m.settle_exclusive(a).shared == m.shared,
{
}

/// Once every loan on `a` is settled, a mutable loan on `a` may be granted
/// again; in particular settling the last immutable loan on `a` reopens `a`
/// to mutable loans.
pub proof fn lemma_release_all_reopens(m: LedgerModel, a: Addr)
    ensures
        m.shared.count(a) == 0 && m.exclusive.count(a) == 0 ==> m.exclusive_ok(a),
        m.inv() && m.shared.count(a) == 1 ==> m.settle_shared(a).exclusive_ok(a),
        m.exclusive.count(a) == 1 && m.shared.count(a) == 0 ==> m.settle_exclusive(
            a,
        ).exclusive_ok(a),
{
}

/// Settling an address with no outstanding loan of the settled kind is a
/// no-op: the whole ledger — unrelated addresses included — is unchanged.
pub proof fn lemma_settle_absent_is_noop(m: LedgerModel, a: Addr)
    ensures
        m.shared.count(a) == 0 ==> m.settle_shared(a) == m,
        m.exclusive.count(a) == 0 ==> m.settle_exclusive(a) == m,
{
    if m.shared.count(a) == 0 {
        assert(m.settle_shared(a).shared =~= m.shared);
    }
    if m.exclusive.count(a) == 0 {
        assert(m.settle_exclusive(a).exclusive =~= m.exclusive);
    }
}

} // verus!
