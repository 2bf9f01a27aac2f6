//! Context types: the collaborator-facing surface around one [`Scope`].
//!
//! Each boundary crossing from the VM into native code gets exactly one
//! context — module initialization, a function call, or a task completion —
//! and each context owns exactly one scope. A context hands out capability
//! operations: construct primitive VM values, obtain a guard root, and (for
//! call contexts) read the call's arguments, `this` binding and callee.
//! Every value-constructing operation demands an active scope: after a
//! pending VM exception or a `deactivate`, no further VM value may be made.

use crate::guard::VmGuard;
use crate::ledger::LedgerModel;
use crate::scope::{Isolate, Scope, ScopeStack, ScopeView};
use vstd::prelude::*;

verus! {

/// A reference to a VM-managed object. It is valid only for the lifetime of
/// the scope it was created in; the pair of that scope's arena token and an
/// index within the arena stands for the VM's opaque object reference.
#[derive(Clone, Copy, Debug, PartialEq, Eq, Structural)]
pub struct Handle {
    /// Arena token of the scope the handle belongs to.
    pub scope_token: u64,
    /// The handle's index within that scope's arena.
    pub index: u64,
}

impl Handle {
    /// Wraps the arena slot the host runtime put a VM reference in.
    pub fn new(scope_token: u64, index: u64) -> (h: Handle)
        ensures
            h == (Handle { scope_token, index }),
    {
        Handle { scope_token, index }
    }
}

/// A sentinel: a VM-level exception is already pending. Code that observes
/// it must construct no further VM value and must propagate immediately.
#[derive(Clone, Copy, Debug, PartialEq, Eq, Structural)]
pub struct Throw;

impl Throw {
    /// A human-readable account of the condition.
    pub fn message(&self) -> (m: &'static str)
        ensures
            m@ == "JavaScript Error"@,
    {
        "JavaScript Error"
    }
}

/// The result of a native operation that may leave a VM exception pending.
pub type VmResult<T> = Result<T, Throw>;

/// The result of a native operation that produces a VM value on success.
pub type JsResult = VmResult<Handle>;

/// Whether a function was invoked as a constructor or as a plain call.
#[derive(Clone, Copy, Debug, PartialEq, Eq, Structural)]
pub enum CallKind {
    Construct,
    Call,
}

/// The scope state in which one more handle may be allotted.
pub open spec fn can_alloc(s: ScopeView) -> bool {
    s.active && s.handles < u64::MAX
}

/// The handle that allotting next from scope state `s` yields.
pub open spec fn next_handle(s: ScopeView) -> Handle {
    Handle { scope_token: s.token, index: s.handles }
}

/// The visible state of a [`CallbackInfo`].
pub struct CallbackInfoView {
    /// The extra data value registered with the callee.
    pub data: Handle,
    /// The call's `this` binding.
    pub this_value: Handle,
    /// The function being called.
    pub callee: Handle,
    /// Whether the call is a constructor invocation.
    pub construct: bool,
    /// The positional arguments.
    pub args: Seq<Handle>,
    /// The return value set so far, if any.
    pub ret: Option<Handle>,
}

/// One native call's inputs as handed over by the host runtime, and the
/// return slot the call may fill. Argument access is bounds-checked: reading
/// past the declared argument count yields an absent value or a thrown
/// type-error condition, never undefined behaviour.
pub struct CallbackInfo {
    data: Handle,
    this_value: Handle,
    callee: Handle,
    construct: bool,
    args: Vec<Handle>,
    ret: Option<Handle>,
}

impl View for CallbackInfo {
    type V = CallbackInfoView;

    closed spec fn view(&self) -> CallbackInfoView {
        CallbackInfoView {
            data: self.data,
            this_value: self.this_value,
            callee: self.callee,
            construct: self.construct,
            args: self.args@,
            ret: self.ret,
        }
    }
}

impl CallbackInfo {
    /// The argument count fits the host calling convention's signed width.
    pub open spec fn wf(self) -> bool {
        self@.args.len() <= i32::MAX
    }

    /// Packages one call's inputs. The host runtime hands over the data
    /// value, the `this` binding, the callee, the construct-vs-call
    /// discriminator and the positional arguments; the return slot starts
    /// empty.
    pub fn new(data: Handle, this_value: Handle, callee: Handle, construct: bool, args: Vec<
        Handle,
    >) -> (info: CallbackInfo)
        requires
            args@.len() <= i32::MAX,
        ensures
            info@ == (CallbackInfoView {
                data,
                this_value,
                callee,
                construct,
                args: args@,
                ret: None,
            }),
            info.wf(),
    {
        CallbackInfo { data, this_value, callee, construct, args, ret: None }
    }

    /// The extra data value registered with the callee.
    pub fn data(&self) -> (h: Handle)
        ensures
            h == self@.data,
    {
        self.data
    }

    /// Whether the call is a constructor invocation or a plain call.
    pub(crate) fn kind(&self) -> (k: CallKind)
        ensures
            k == (if self@.construct {
                CallKind::Construct
            } else {
                CallKind::Call
            }),
    {
        if self.construct {
            CallKind::Construct
        } else {
            CallKind::Call
        }
    }

    /// The number of positional arguments.
    pub fn len(&self) -> (n: i32)
        requires
            self.wf(),
        ensures
            n == self@.args.len(),
    {
        self.args.len() as i32
    }

    /// The `i`th argument, or `None` when `i` is outside the declared
    /// argument count.
    pub fn get(&self, i: i32) -> (r: Option<Handle>)
        requires
            self.wf(),
        ensures
            0 <= i < self@.args.len() ==> r == Some(self@.args[i as int]),
            !(0 <= i < self@.args.len()) ==> r is None,
    {
        if i < 0 || i >= self.len() {
            return None;
        }
        Some(self.args[i as usize])
    }

    /// The `i`th argument; when `i` is outside the declared argument count,
    /// the thrown type-error condition for a missing required argument.
    pub fn require(&self, i: i32) -> (r: JsResult)
        requires
            self.wf(),
        ensures
            0 <= i < self@.args.len() ==> r == Ok::<Handle, Throw>(self@.args[i as int]),
            !(0 <= i < self@.args.len()) ==> r == Err::<Handle, Throw>(Throw),
    {
        if i < 0 || i >= self.len() {
            return Err(Throw);
        }
        Ok(self.args[i as usize])
    }

    /// The call's `this` binding.
    pub fn this(&self) -> (h: Handle)
        ensures
            h == self@.this_value,
    {
        self.this_value
    }

    /// The function being called.
    pub fn callee(&self) -> (h: Handle)
        ensures
            h == self@.callee,
    {
        self.callee
    }

    /// Sets the call's return value; the host runtime reads it back after
    /// the native call returns.
    pub fn set_return(&mut self, value: Handle)
        ensures
            final (self)@ == (CallbackInfoView { ret: Some(value), ..old(self)@ }),
    {
        self.ret = Some(value);
    }

    /// The return value set so far, if any.
    pub fn return_value(&self) -> (r: Option<Handle>)
        ensures
            r == self@.ret,
    {
        self.ret
    }

    /// Runs one native call: enters a fresh scope on `stack`, hands these
    /// inputs to `f` through a call context, and exits the scope with the
    /// context `f` hands back — the stack is left exactly as it was found,
    /// also when `f`'s result reports a thrown condition. Returns `f`'s
    /// result beside the call's inputs, whose return slot the host then
    /// reads.
    pub fn with_vm<U, F: FnOnce(CallContext) -> (U, CallContext)>(
        self,
        stack: &mut ScopeStack,
        isolate: Isolate,
        f: F,
    ) -> (r: (U, CallbackInfo))
        requires
            self.wf(),
            old(stack).wf(),
            old(stack)@.next < u64::MAX,
            forall|cx: CallContext|
                cx@.scope.active && cx@.scope.isolate == isolate && cx@.scope.handles == 0
                    && cx@.info == self@ ==> #[trigger] call_requires(f, (cx,)),
            forall|cx: CallContext, o: (U, CallContext)| #[trigger]
                call_ensures(f, (cx,), o) ==> o.1@.scope.token == cx@.scope.token,
        ensures
            final (stack).wf(),
            final (stack)@.entries == old(stack)@.entries,
            final (stack)@.next == old(stack)@.next + 1,
            exists|cx: CallContext, o: (U, CallContext)|
                {
                    &&& cx@.scope.active
                    &&& cx@.scope.isolate == isolate
                    &&& cx@.scope.handles == 0
                    &&& cx@.scope.token == old(stack)@.next
                    &&& cx@.info == self@
                    &&& #[trigger] call_ensures(f, (cx,), o)
                    &&& r.0 == o.0
                    &&& r.1@ == o.1@.info
                },
    {
        let scope = stack.enter(isolate);
        let cx = CallContext::new(scope, self);
        let (u, cx) = f(cx);
        let (scope, info) = cx.into_parts();
        stack.exit(scope);
        proof {
            assert(stack@.entries =~= old(stack)@.entries);
        }
        (u, info)
    }
}

/// The visible state of a [`ModuleContext`].
pub struct ModuleContextView {
    /// The context's one scope.
    pub scope: ScopeView,
    /// The module's exports object.
    pub exports: Handle,
    /// The writes made to the exports object, in order.
    pub exported: Seq<(Seq<char>, Handle)>,
}

/// The context of one module-initialization call: owns the call's scope and
/// the module's exports object.
pub struct ModuleContext {
    scope: Scope,
    exports: Handle,
    exported: Vec<(String, Handle)>,
}

impl View for ModuleContext {
    type V = ModuleContextView;

    closed spec fn view(&self) -> ModuleContextView {
        ModuleContextView {
            scope: self.scope@,
            exports: self.exports,
            exported: self.exported@.map_values(|p: (String, Handle)| (p.0@, p.1)),
        }
    }
}

impl ModuleContext {
    /// Wraps the freshly entered scope of a module-initialization call
    /// together with the module's exports object.
    pub fn new(scope: Scope, exports: Handle) -> (cx: ModuleContext)
        ensures
            cx@.scope == scope@,
            cx@.exports == exports,
            cx@.exported == Seq::<(Seq<char>, Handle)>::empty(),
    {
        let cx = ModuleContext { scope, exports, exported: Vec::new() };
        proof {
            assert(cx@.exported =~= Seq::<(Seq<char>, Handle)>::empty());
        }
        cx
    }

    /// The context's one scope.
    pub fn scope(&self) -> (s: &Scope)
        ensures
            s@ == self@.scope,
    {
        &self.scope
    }

    /// Records `val` under `key` on the module's exports object.
    pub fn export_value(&mut self, key: &str, val: Handle) -> (r: VmResult<()>)
        requires
            old(self)@.scope.active,
        ensures
            r == Ok::<(), Throw>(()),
            final (self)@.exported == old(self)@.exported.push((key@, val)),
            final (self)@.scope == old(self)@.scope,
            final (self)@.exports == old(self)@.exports,
    {
        self.exported.push((key.to_owned(), val));
        proof {
            assert(self@.exported =~= old(self)@.exported.push((key@, val)));
        }
        Ok(())
    }

    /// The module's exports object.
    pub fn exports_object(&self) -> (r: JsResult)
        ensures
            r == Ok::<Handle, Throw>(self@.exports),
    {
        Ok(self.exports)
    }

    /// Hands the scope back, so the caller can exit the arena it entered.
    pub fn into_scope(self) -> (s: Scope)
        ensures
            s@ == self@.scope,
    {
        self.scope
    }

    fn alloc_handle(&mut self) -> (h: Handle)
        requires
            can_alloc(old(self)@.scope),
        ensures
            h == next_handle(old(self)@.scope),
            final (self)@ == (ModuleContextView { scope: old(self)@.scope.bumped(), ..old(self)@ }),
    {
        let t = self.scope.token();
        let i = self.scope.alloc_index();
        Handle::new(t, i)
    }

    /// Obtains a fresh guard root, bound to this call: its ledger holds no
    /// loan yet.
    pub fn lock(&self) -> (g: VmGuard)
        ensures
            g@ == LedgerModel::empty(),
            g@.inv(),
    {
        VmGuard::new()
    }

    /// Constructs a boolean VM value holding `b`. The handle is allotted
    /// from this context's scope; the value's content lives with the VM.
    #[allow(unused_variables)]
    pub fn boolean(&mut self, b: bool) -> (h: Handle)
        requires
            can_alloc(old(self)@.scope),
        ensures
            h == next_handle(old(self)@.scope),
            final (self)@ == (ModuleContextView { scope: old(self)@.scope.bumped(), ..old(self)@ }),
    {
        self.alloc_handle()
    }

    /// Constructs a string VM value holding `s`. The handle is allotted
    /// from this context's scope; the value's content lives with the VM.
    #[allow(unused_variables)]
    pub fn string(&mut self, s: &str) -> (h: Handle)
        requires
            can_alloc(old(self)@.scope),
        ensures
            h == next_handle(old(self)@.scope),
            final (self)@ == (ModuleContextView { scope: old(self)@.scope.bumped(), ..old(self)@ }),
    {
        self.alloc_handle()
    }

    /// Constructs the null VM value.
    pub fn null(&mut self) -> (h: Handle)
        requires
            can_alloc(old(self)@.scope),
        ensures
            h == next_handle(old(self)@.scope),
            final (self)@ == (ModuleContextView { scope: old(self)@.scope.bumped(), ..old(self)@ }),
    {
        self.alloc_handle()
    }

    /// Constructs the undefined VM value.
    pub fn undefined(&mut self) -> (h: Handle)
        requires
            can_alloc(old(self)@.scope),
        ensures
            h == next_handle(old(self)@.scope),
            final (self)@ == (ModuleContextView { scope: old(self)@.scope.bumped(), ..old(self)@ }),
    {
        self.alloc_handle()
    }

    /// Constructs an empty object VM value.
    pub fn empty_object(&mut self) -> (h: Handle)
        requires
            can_alloc(old(self)@.scope),
        ensures
            h == next_handle(old(self)@.scope),
            final (self)@ == (ModuleContextView { scope: old(self)@.scope.bumped(), ..old(self)@ }),
    {
        self.alloc_handle()
    }

    /// Constructs an empty array VM value.
    pub fn empty_array(&mut self) -> (h: Handle)
        requires
            can_alloc(old(self)@.scope),
        ensures
            h == next_handle(old(self)@.scope),
            final (self)@ == (ModuleContextView { scope: old(self)@.scope.bumped(), ..old(self)@ }),
    {
        self.alloc_handle()
    }

    /// Allocates a fixed-size binary buffer of `size` bytes in the VM's
    /// heap.
    #[allow(unused_variables)]
    pub fn array_buffer(&mut self, size: u32) -> (r: JsResult)
        requires
            can_alloc(old(self)@.scope),
        ensures
            r == Ok::<Handle, Throw>(next_handle(old(self)@.scope)),
            final (self)@ == (ModuleContextView { scope: old(self)@.scope.bumped(), ..old(self)@ }),
    {
        Ok(self.alloc_handle())
    }
}

/// Runs a module's initialization: enters a fresh scope on `stack`, wraps
/// it in a module context with the module's `exports` object, hands the
/// context to `init`, and exits the scope with the context `init` hands
/// back — the stack is left exactly as it was found, also when `init`'s
/// result reports a thrown condition.
pub fn initialize_module<F: FnOnce(ModuleContext) -> (VmResult<()>, ModuleContext)>(
    stack: &mut ScopeStack,
    isolate: Isolate,
    exports: Handle,
    init: F,
) -> (r: VmResult<()>)
    requires
        old(stack).wf(),
        old(stack)@.next < u64::MAX,
        forall|cx: ModuleContext|
            cx@.scope.active && cx@.scope.isolate == isolate && cx@.scope.handles == 0
                && cx@.exports == exports && cx@.exported == Seq::<(Seq<char>, Handle)>::empty()
                ==> #[trigger] call_requires(init, (cx,)),
        forall|cx: ModuleContext, o: (VmResult<()>, ModuleContext)| #[trigger]
            call_ensures(init, (cx,), o) ==> o.1@.scope.token == cx@.scope.token,
    ensures
        final (stack).wf(),
        final (stack)@.entries == old(stack)@.entries,
        final (stack)@.next == old(stack)@.next + 1,
        exists|cx: ModuleContext, o: (VmResult<()>, ModuleContext)|
            {
                &&& cx@.scope.active
                &&& cx@.scope.isolate == isolate
                &&& cx@.scope.handles == 0
                &&& cx@.scope.token == old(stack)@.next
                &&& cx@.exports == exports
                &&& cx@.exported == Seq::<(Seq<char>, Handle)>::empty()
                &&& #[trigger] call_ensures(init, (cx,), o)
                &&& r == o.0
            },
{
    let scope = stack.enter(isolate);
    let cx = ModuleContext::new(scope, exports);
    let (r, cx) = init(cx);
    let scope = cx.into_scope();
    stack.exit(scope);
    proof {
        assert(stack@.entries =~= old(stack)@.entries);
    }
    r
}

/// The visible state of a [`CallContext`].
pub struct CallContextView {
    /// The context's one scope.
    pub scope: ScopeView,
    /// The call's inputs and return slot.
    pub info: CallbackInfoView,
}

/// The context of one native function call: owns the call's scope and its
/// inputs.
pub struct CallContext {
    scope: Scope,
    info: CallbackInfo,
}

impl View for CallContext {
    type V = CallContextView;

    closed spec fn view(&self) -> CallContextView {
        CallContextView { scope: self.scope@, info: self.info@ }
    }
}

impl CallContext {
    /// The argument count fits the host calling convention's signed width.
    pub open spec fn wf(self) -> bool {
        self@.info.args.len() <= i32::MAX
    }

    /// Wraps the freshly entered scope of one native call together with the
    /// call's inputs.
    pub fn new(scope: Scope, info: CallbackInfo) -> (cx: CallContext)
        requires
            info.wf(),
        ensures
            cx@.scope == scope@,
            cx@.info == info@,
            cx.wf(),
    {
        CallContext { scope, info }
    }

    /// Whether the call is a constructor invocation or a plain call.
    pub fn kind(&self) -> (k: CallKind)
        ensures
            k == (if self@.info.construct {
                CallKind::Construct
            } else {
                CallKind::Call
            }),
    {
        self.info.kind()
    }

    /// The number of positional arguments.
    pub fn len(&self) -> (n: i32)
        requires
            self.wf(),
        ensures
            n == self@.info.args.len(),
    {
        self.info.len()
    }

    /// The `i`th argument: present when `i` is within the declared argument
    /// count, absent otherwise. Absence is not an error.
    pub fn argument_opt(&self, i: i32) -> (r: VmResult<Option<Handle>>)
        requires
            self.wf(),
        ensures
            0 <= i < self@.info.args.len() ==> r == Ok::<Option<Handle>, Throw>(
                Some(self@.info.args[i as int]),
            ),
            !(0 <= i < self@.info.args.len()) ==> r == Ok::<Option<Handle>, Throw>(None),
    {
        Ok(self.info.get(i))
    }

    /// The `i`th argument; when `i` is outside the declared argument count,
    /// the thrown type-error condition for a missing required argument.
    pub fn argument(&self, i: i32) -> (r: JsResult)
        requires
            self.wf(),
        ensures
            0 <= i < self@.info.args.len() ==> r == Ok::<Handle, Throw>(self@.info.args[i as int]),
            !(0 <= i < self@.info.args.len()) ==> r == Err::<Handle, Throw>(Throw),
    {
        self.info.require(i)
    }

    /// The call's `this` binding.
    pub fn this(&self) -> (h: Handle)
        ensures
            h == self@.info.this_value,
    {
        self.info.this()
    }

    /// The function being called.
    pub fn callee(&self) -> (h: Handle)
        ensures
            h == self@.info.callee,
    {
        self.info.callee()
    }

    /// The context's one scope.
    pub fn scope(&self) -> (s: &Scope)
        ensures
            s@ == self@.scope,
    {
        &self.scope
    }

    /// Sets the call's return value; the host runtime reads it back after
    /// the native call returns.
    pub fn set_return(&mut self, value: Handle)
        ensures
            final (self)@.info == (CallbackInfoView { ret: Some(value), ..old(self)@.info }),
            final (self)@.scope == old(self)@.scope,
    {
        self.info.set_return(value);
    }

    /// Hands the scope and the call's inputs back, so the caller can read
    /// the return slot and exit the arena it entered.
    pub fn into_parts(self) -> (parts: (Scope, CallbackInfo))
        ensures
            parts.0@ == self@.scope,
            parts.1@ == self@.info,
    {
        (self.scope, self.info)
    }

    fn alloc_handle(&mut self) -> (h: Handle)
        requires
            can_alloc(old(self)@.scope),
        ensures
            h == next_handle(old(self)@.scope),
            final (self)@ == (CallContextView { scope: old(self)@.scope.bumped(), ..old(self)@ }),
    {
        let t = self.scope.token();
        let i = self.scope.alloc_index();
        Handle::new(t, i)
    }

    /// Obtains a fresh guard root, bound to this call: its ledger holds no
    /// loan yet.
    pub fn lock(&self) -> (g: VmGuard)
        ensures
            g@ == LedgerModel::empty(),
            g@.inv(),
    {
        VmGuard::new()
    }

    /// Constructs a boolean VM value holding `b`. The handle is allotted
    /// from this context's scope; the value's content lives with the VM.
    #[allow(unused_variables)]
    pub fn boolean(&mut self, b: bool) -> (h: Handle)
        requires
            can_alloc(old(self)@.scope),
        ensures
            h == next_handle(old(self)@.scope),
            final (self)@ == (CallContextView { scope: old(self)@.scope.bumped(), ..old(self)@ }),
    {
        self.alloc_handle()
    }

    /// Constructs a string VM value holding `s`. The handle is allotted
    /// from this context's scope; the value's content lives with the VM.
    #[allow(unused_variables)]
    pub fn string(&mut self, s: &str) -> (h: Handle)
        requires
            can_alloc(old(self)@.scope),
        ensures
            h == next_handle(old(self)@.scope),
            final (self)@ == (CallContextView { scope: old(self)@.scope.bumped(), ..old(self)@ }),
    {
        self.alloc_handle()
    }

    /// Constructs the null VM value.
    pub fn null(&mut self) -> (h: Handle)
        requires
            can_alloc(old(self)@.scope),
        ensures
            h == next_handle(old(self)@.scope),
            final (self)@ == (CallContextView { scope: old(self)@.scope.bumped(), ..old(self)@ }),
    {
        self.alloc_handle()
    }

    /// Constructs the undefined VM value.
    pub fn undefined(&mut self) -> (h: Handle)
        requires
            can_alloc(old(self)@.scope),
        ensures
            h == next_handle(old(self)@.scope),
            final (self)@ == (CallContextView { scope: old(self)@.scope.bumped(), ..old(self)@ }),
    {
        self.alloc_handle()
    }

    /// Constructs an empty object VM value.
    pub fn empty_object(&mut self) -> (h: Handle)
        requires
            can_alloc(old(self)@.scope),
        ensures
            h == next_handle(old(self)@.scope),
            final (self)@ == (CallContextView { scope: old(self)@.scope.bumped(), ..old(self)@ }),
    {
        self.alloc_handle()
    }

    /// Constructs an empty array VM value.
    pub fn empty_array(&mut self) -> (h: Handle)
        requires
            can_alloc(old(self)@.scope),
        ensures
            h == next_handle(old(self)@.scope),
            final (self)@ == (CallContextView { scope: old(self)@.scope.bumped(), ..old(self)@ }),
    {
        self.alloc_handle()
    }

    /// Allocates a fixed-size binary buffer of `size` bytes in the VM's
    /// heap.
    #[allow(unused_variables)]
    pub fn array_buffer(&mut self, size: u32) -> (r: JsResult)
        requires
            can_alloc(old(self)@.scope),
        ensures
            r == Ok::<Handle, Throw>(next_handle(old(self)@.scope)),
            final (self)@ == (CallContextView { scope: old(self)@.scope.bumped(), ..old(self)@ }),
    {
        Ok(self.alloc_handle())
    }
}

/// The visible state of a [`TaskContext`].
pub struct TaskContextView {
    /// The context's one scope.
    pub scope: ScopeView,
}

/// The context of one task-completion call: owns the fresh scope the
/// completion runs in.
pub struct TaskContext {
    scope: Scope,
}

impl View for TaskContext {
    type V = TaskContextView;

    closed spec fn view(&self) -> TaskContextView {
        TaskContextView { scope: self.scope@ }
    }
}

impl TaskContext {
    /// Wraps the freshly entered scope of one task completion.
    pub fn new(scope: Scope) -> (cx: TaskContext)
        ensures
            cx@.scope == scope@,
    {
        TaskContext { scope }
    }

    /// The context's one scope.
    pub fn scope(&self) -> (s: &Scope)
        ensures
            s@ == self@.scope,
    {
        &self.scope
    }

    /// Hands the scope back, so the caller can exit the arena it entered.
    pub fn into_scope(self) -> (s: Scope)
        ensures
            s@ == self@.scope,
    {
        self.scope
    }

    fn alloc_handle(&mut self) -> (h: Handle)
        requires
            can_alloc(old(self)@.scope),
        ensures
            h == next_handle(old(self)@.scope),
            final (self)@ == (TaskContextView { scope: old(self)@.scope.bumped() }),
    {
        let t = self.scope.token();
        let i = self.scope.alloc_index();
        Handle::new(t, i)
    }

    /// Obtains a fresh guard root, bound to this call: its ledger holds no
    /// loan yet.
    pub fn lock(&self) -> (g: VmGuard)
        ensures
            g@ == LedgerModel::empty(),
            g@.inv(),
    {
        VmGuard::new()
    }

    /// Constructs a boolean VM value holding `b`. The handle is allotted
    /// from this context's scope; the value's content lives with the VM.
    #[allow(unused_variables)]
    pub fn boolean(&mut self, b: bool) -> (h: Handle)
        requires
            can_alloc(old(self)@.scope),
        ensures
            h == next_handle(old(self)@.scope),
            final (self)@ == (TaskContextView { scope: old(self)@.scope.bumped() }),
    {
        self.alloc_handle()
    }

    /// Constructs a string VM value holding `s`. The handle is allotted
    /// from this context's scope; the value's content lives with the VM.
    #[allow(unused_variables)]
    pub fn string(&mut self, s: &str) -> (h: Handle)
        requires
            can_alloc(old(self)@.scope),
        ensures
            h == next_handle(old(self)@.scope),
            final (self)@ == (TaskContextView { scope: old(self)@.scope.bumped() }),
    {
        self.alloc_handle()
    }

    /// Constructs the null VM value.
    pub fn null(&mut self) -> (h: Handle)
        requires
            can_alloc(old(self)@.scope),
        ensures
            h == next_handle(old(self)@.scope),
            final (self)@ == (TaskContextView { scope: old(self)@.scope.bumped() }),
    {
        self.alloc_handle()
    }

    /// Constructs the undefined VM value.
    pub fn undefined(&mut self) -> (h: Handle)
        requires
            can_alloc(old(self)@.scope),
        ensures
            h == next_handle(old(self)@.scope),
            final (self)@ == (TaskContextView { scope: old(self)@.scope.bumped() }),
    {
        self.alloc_handle()
    }

    /// Constructs an empty object VM value.
    pub fn empty_object(&mut self) -> (h: Handle)
        requires
            can_alloc(old(self)@.scope),
        ensures
            h == next_handle(old(self)@.scope),
            final (self)@ == (TaskContextView { scope: old(self)@.scope.bumped() }),
    {
        self.alloc_handle()
    }

    /// Constructs an empty array VM value.
    pub fn empty_array(&mut self) -> (h: Handle)
        requires
            can_alloc(old(self)@.scope),
        ensures
            h == next_handle(old(self)@.scope),
            final (self)@ == (TaskContextView { scope: old(self)@.scope.bumped() }),
    {
        self.alloc_handle()
    }

    /// Allocates a fixed-size binary buffer of `size` bytes in the VM's
    /// heap.
    #[allow(unused_variables)]
    pub fn array_buffer(&mut self, size: u32) -> (r: JsResult)
        requires
            can_alloc(old(self)@.scope),
        ensures
            r == Ok::<Handle, Throw>(next_handle(old(self)@.scope)),
            final (self)@ == (TaskContextView { scope: old(self)@.scope.bumped() }),
    {
        Ok(self.alloc_handle())
    }
}

} // verus!
