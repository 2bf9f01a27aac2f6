//! The stack-discipline handle scope.
//!
//! Every reference to a VM-managed object is created inside a scope and is
//! only valid for that scope's lifetime. Scopes on one thread nest in strict
//! last-in-first-out order, mirroring the VM's own native handle-scope
//! stack; [`ScopeStack`] models that stack and enforces the discipline:
//! exits occur in exact reverse order of entries.

use vstd::prelude::*;

verus! {

/// An opaque handle to one VM instance, carried as the isolate's plain
/// integer identity. Downstream code uses it to key per-isolate side tables.
#[derive(Clone, Copy, Debug, PartialEq, Eq, Structural)]
pub struct Isolate {
    raw: u64,
}

impl Isolate {
    /// The isolate's identity.
    pub closed spec fn id(self) -> u64 {
        self.raw
    }

    /// Wraps the plain identity under which the host runtime knows this
    /// isolate.
    pub fn from_raw(raw: u64) -> (i: Isolate)
        ensures
            i.id() == raw,
    {
        Isolate { raw }
    }

    /// The plain identity under which the host runtime knows this isolate.
    pub fn to_raw(self) -> (r: u64)
        ensures
            r == self.id(),
    {
        self.raw
    }
}

/// The visible state of a [`Scope`].
pub struct ScopeView {
    /// The isolate the scope is bound to.
    pub isolate: Isolate,
    /// Whether the scope's liveness guarantee currently holds.
    pub active: bool,
    /// The token of the arena entry this scope stands for, unique on its
    /// [`ScopeStack`].
    pub token: u64,
    /// How many handles have been allotted inside this scope.
    pub handles: u64,
}

impl ScopeView {
    /// The same scope after one more handle has been allotted.
    pub open spec fn bumped(self) -> ScopeView {
        ScopeView { handles: (self.handles + 1) as u64, ..self }
    }
}

/// A stack-discipline handle arena, bound one-to-one to an entry/exit pair
/// on a [`ScopeStack`]. References created while the scope is active are
/// valid only for the scope's lifetime; that bound is a lexical contract on
/// callers, not a runtime check.
pub struct Scope {
    isolate: Isolate,
    active: bool,
    token: u64,
    handles: u64,
}

impl View for Scope {
    type V = ScopeView;

    closed spec fn view(&self) -> ScopeView {
        ScopeView {
            isolate: self.isolate,
            active: self.active,
            token: self.token,
            handles: self.handles,
        }
    }
}

impl Scope {
    /// The isolate this scope is bound to.
    pub fn isolate(&self) -> (i: Isolate)
        ensures
            i == self@.isolate,
    {
        self.isolate
    }

    /// The token of the arena entry this scope stands for.
    pub fn token(&self) -> (t: u64)
        ensures
            t == self@.token,
    {
        self.token
    }

    /// Whether the scope's liveness guarantee currently holds.
    pub fn is_active(&self) -> (b: bool)
        ensures
            b == self@.active,
    {
        self.active
    }

    /// Restores the liveness guarantee after a [`Scope::deactivate`].
    pub fn activate(&mut self)
        ensures
            final (self)@ == (ScopeView { active: true, ..old(self)@ }),
    {
        self.active = true;
    }

    /// Suspends the liveness guarantee, so a surrounding call may re-enter
    /// VM code through a path that manages its own scope. Callers must not
    /// observe or produce VM-managed references while the scope is inactive.
    pub fn deactivate(&mut self)
        ensures
            final (self)@ == (ScopeView { active: false, ..old(self)@ }),
    {
        self.active = false;
    }

    /// Enters a fresh handle arena on `stack`, invokes `f` with the new
    /// scope, and exits the arena with the scope `f` hands back: entry and
    /// exit are always paired, and on return the stack holds exactly the
    /// entries it held before — also when `f`'s result reports an error.
    /// `f` must keep the scope it was handed: its arena token is the proof
    /// that the innermost arena is the one being exited.
    pub fn with<T, F: FnOnce(Scope) -> (T, Scope)>(
        stack: &mut ScopeStack,
        isolate: Isolate,
        f: F,
    ) -> (r: T)
        requires
            old(stack).wf(),
            old(stack)@.next < u64::MAX,
            forall|s: Scope|
                s@.active && s@.isolate == isolate && s@.handles == 0 ==> #[trigger] call_requires(
                    f,
                    (s,),
                ),
            forall|s: Scope, o: (T, Scope)| #[trigger]
                call_ensures(f, (s,), o) ==> o.1@.token == s@.token,
        ensures
            final (stack).wf(),
            final (stack)@.entries == old(stack)@.entries,
            final (stack)@.next == old(stack)@.next + 1,
            exists|s: Scope, o: (T, Scope)|
                {
                    &&& s@.active
                    &&& s@.isolate == isolate
                    &&& s@.handles == 0
                    &&& s@.token == old(stack)@.next
                    &&& #[trigger] call_ensures(f, (s,), o)
                    &&& r == o.0
                },
    {
        let scope = stack.enter(isolate);
        let (r, scope) = f(scope);
        stack.exit(scope);
        proof {
            assert(stack@.entries =~= old(stack)@.entries);
        }
        r
    }

    /// Allots the next handle index of this scope. References may only be
    /// created while the scope is active.
    pub fn alloc_index(&mut self) -> (i: u64)
        requires
            old(self)@.active,
            old(self)@.handles < u64::MAX,
        ensures
            i == old(self)@.handles,
            final (self)@ == (ScopeView { handles: (old(self)@.handles + 1) as u64, ..old(self)@ }),
    {
        let i = self.handles;
        self.handles = self.handles + 1;
        i
    }
}

/// The model of a [`ScopeStack`]: the arena tokens of the scopes currently
/// entered on the thread, oldest first, and the next token to be issued.
pub struct StackView {
    /// Tokens of the entered scopes, in entry order.
    pub entries: Seq<u64>,
    /// The next token to be issued; every issued token is below it.
    pub next: u64,
}

/// One thread's native handle-scope stack. Every [`Scope`] is entered on a
/// stack and must be exited on the same stack, in exact reverse order of
/// entry.
pub struct ScopeStack {
    entries: Vec<u64>,
    next_token: u64,
}

impl View for ScopeStack {
    type V = StackView;

    closed spec fn view(&self) -> StackView {
        StackView { entries: self.entries@, next: self.next_token }
    }
}

/// Which scope the stack discipline lets exit: only the innermost one, the
/// scope entered last among those still entered.
pub open spec fn can_exit(entries: Seq<u64>, token: u64) -> bool {
    entries.len() > 0 && entries.last() == token
}

impl ScopeStack {
    /// Every entered token is unique and below the next token to be issued.
    pub open spec fn wf(self) -> bool {
        self@.entries.no_duplicates() && forall|k: int|
            #![trigger self@.entries[k]]
            0 <= k < self@.entries.len() ==> self@.entries[k] < self@.next
    }

    /// A thread's stack before any scope is entered.
    pub fn new() -> (s: ScopeStack)
        ensures
            s@.entries == Seq::<u64>::empty(),
            s@.next == 0,
            s.wf(),
    {
        let s = ScopeStack { entries: Vec::new(), next_token: 0 };
        proof {
            assert(s@.entries =~= Seq::<u64>::empty());
        }
        s
    }

    /// How many scopes are currently entered.
    pub fn depth(&self) -> (n: usize)
        ensures
            n == self@.entries.len(),
    {
        self.entries.len()
    }

    /// Enters a fresh handle arena bound to `isolate`. The new scope is
    /// active, has allotted no handles, and carries a token never issued
    /// before on this stack; it becomes the innermost entry.
    pub fn enter(&mut self, isolate: Isolate) -> (s: Scope)
        requires
            old(self).wf(),
            old(self)@.next < u64::MAX,
        ensures
            final (self).wf(),
            s@.isolate == isolate,
            s@.active,
            s@.handles == 0,
            s@.token == old(self)@.next,
            !old(self)@.entries.contains(s@.token),
            final (self)@.entries == old(self)@.entries.push(s@.token),
            final (self)@.next == old(self)@.next + 1,
    {
        let token = self.next_token;
        self.next_token = self.next_token + 1;
        self.entries.push(token);
        proof {
            let pre = old(self)@.entries;
            let post = self@.entries;
            assert(post =~= pre.push(token));
            assert(!pre.contains(token));
            assert forall|i: int, j: int| 0 <= i < j < post.len() implies post[i] != post[j] by {
                if j < post.len() - 1 {
                    assert(pre[i] != pre[j]);
                } else {
                    assert(post[i] == pre[i]);
                    assert(pre[i] < old(self)@.next);
                }
            }
        }
        Scope { isolate, active: true, token, handles: 0 }
    }

    /// Leaves the innermost arena, handing back the scope that entered it.
    /// Scopes exit in exact reverse order of entry: handing any scope but
    /// the innermost one breaches the stack discipline, a fatal internal
    /// inconsistency that the precondition excludes rather than recovers
    /// from.
    pub fn exit(&mut self, s: Scope)
        requires
            old(self).wf(),
            can_exit(old(self)@.entries, s@.token),
        ensures
            final (self).wf(),
            final (self)@.entries == old(self)@.entries.drop_last(),
            final (self)@.next == old(self)@.next,
    {
        let _ = self.entries.pop();
        proof {
            let pre = old(self)@.entries;
            let post = self@.entries;
            assert(post =~= pre.drop_last());
            assert forall|i: int, j: int| 0 <= i < j < post.len() implies post[i] != post[j] by {
                assert(pre[i] != pre[j]);
            }
            assert forall|k: int| 0 <= k < post.len() implies post[k] < self@.next by {
                assert(post[k] == pre[k]);
            }
        }
    }
}

/// Exits mirror entries. Of any two scopes still entered, the stack
/// discipline refuses to exit the one entered earlier, and accepts the one
/// entered later exactly when it is the innermost entry.
pub proof fn lemma_exit_order(entries: Seq<u64>, i: int, j: int)
    requires
        entries.no_duplicates(),
        0 <= i < j < entries.len(),
    ensures
        !can_exit(entries, entries[i]),
        can_exit(entries, entries[j]) <==> j == entries.len() - 1,
{
    assert(entries.last() == entries[entries.len() - 1]);
    if i < entries.len() - 1 {
        assert(entries[i] != entries[entries.len() - 1]);
    }
    if j < entries.len() - 1 {
        assert(entries[j] != entries[entries.len() - 1]);
    }
}

} // verus!
