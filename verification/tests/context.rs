use vm_bridge::context::{CallContext, CallKind, CallbackInfo, Handle, ModuleContext, TaskContext, Throw};
use vm_bridge::scope::{Isolate, ScopeStack};

fn info_with_args(construct: bool, args: Vec<Handle>) -> CallbackInfo {
    CallbackInfo::new(
        Handle::new(0, 90),
        Handle::new(0, 91),
        Handle::new(0, 92),
        construct,
        args,
    )
}

#[test]
fn argument_access_is_bounds_checked() {
    let a0 = Handle::new(0, 10);
    let a1 = Handle::new(0, 11);
    let info = info_with_args(false, vec![a0, a1]);
    assert_eq!(info.len(), 2);
    assert_eq!(info.get(0), Some(a0));
    assert_eq!(info.get(1), Some(a1));
    assert_eq!(info.get(2), None);
    assert_eq!(info.get(-1), None);
    assert_eq!(info.require(1), Ok(a1));
    assert_eq!(info.require(2), Err(Throw));
    assert_eq!(info.require(-1), Err(Throw));
}

#[test]
fn callback_info_reports_its_bindings() {
    let info = info_with_args(true, vec![]);
    assert_eq!(info.data(), Handle::new(0, 90));
    assert_eq!(info.this(), Handle::new(0, 91));
    assert_eq!(info.callee(), Handle::new(0, 92));
}

#[test]
fn set_return_fills_the_return_slot() {
    let mut info = info_with_args(false, vec![]);
    assert_eq!(info.return_value(), None);
    info.set_return(Handle::new(0, 5));
    assert_eq!(info.return_value(), Some(Handle::new(0, 5)));
}

#[test]
fn call_context_distinguishes_construct_from_call() {
    let iso = Isolate::from_raw(1);
    let mut stack = ScopeStack::new();
    let scope = stack.enter(iso);
    let cx = CallContext::new(scope, info_with_args(true, vec![]));
    assert_eq!(cx.kind(), CallKind::Construct);
    let (scope, _) = cx.into_parts();
    stack.exit(scope);

    let scope = stack.enter(iso);
    let cx = CallContext::new(scope, info_with_args(false, vec![]));
    assert_eq!(cx.kind(), CallKind::Call);
    let (scope, _) = cx.into_parts();
    stack.exit(scope);
}

#[test]
fn call_context_hands_out_arguments() {
    let iso = Isolate::from_raw(1);
    let mut stack = ScopeStack::new();
    let scope = stack.enter(iso);
    let a0 = Handle::new(0, 10);
    let cx = CallContext::new(scope, info_with_args(false, vec![a0]));
    assert_eq!(cx.len(), 1);
    assert_eq!(cx.argument_opt(0), Ok(Some(a0)));
    assert_eq!(cx.argument_opt(3), Ok(None));
    assert_eq!(cx.argument(0), Ok(a0));
    assert_eq!(cx.argument(3), Err(Throw));
    assert_eq!(cx.this(), Handle::new(0, 91));
    assert_eq!(cx.callee(), Handle::new(0, 92));
    let (scope, _) = cx.into_parts();
    stack.exit(scope);
}

#[test]
fn constructed_values_get_distinct_handles_of_their_scope() {
    let iso = Isolate::from_raw(1);
    let mut stack = ScopeStack::new();
    let scope = stack.enter(iso);
    let token = scope.token();
    let mut cx = TaskContext::new(scope);
    let h1 = cx.undefined();
    let h2 = cx.null();
    let h3 = cx.boolean(true);
    let h4 = cx.string("ready");
    assert_ne!(h1, h2);
    assert_ne!(h2, h3);
    assert_ne!(h3, h4);
    assert_eq!(h1.scope_token, token);
    assert_eq!(h4.scope_token, token);
    stack.exit(cx.into_scope());
}

#[test]
fn array_buffer_reports_success() {
    let iso = Isolate::from_raw(1);
    let mut stack = ScopeStack::new();
    let scope = stack.enter(iso);
    let mut cx = TaskContext::new(scope);
    let r = cx.array_buffer(16);
    assert!(r.is_ok());
    stack.exit(cx.into_scope());
}

#[test]
fn module_context_records_exports() {
    let iso = Isolate::from_raw(1);
    let mut stack = ScopeStack::new();
    let scope = stack.enter(iso);
    let exports = Handle::new(0, 80);
    let mut cx = ModuleContext::new(scope, exports);
    assert_eq!(cx.exports_object(), Ok(exports));
    let one = cx.boolean(true);
    assert_eq!(cx.export_value("one", one), Ok(()));
    let two = cx.empty_object();
    assert_eq!(cx.export_value("two", two), Ok(()));
    stack.exit(cx.into_scope());
}

#[test]
fn lock_hands_out_a_fresh_guard_root() {
    let iso = Isolate::from_raw(1);
    let mut stack = ScopeStack::new();
    let scope = stack.enter(iso);
    let cx = TaskContext::new(scope);
    let mut g = cx.lock();
    assert!(vm_bridge::guard::RefMut::new(&mut g, 100).is_ok());
    stack.exit(cx.into_scope());
}

#[test]
fn initialize_module_pairs_entry_and_exit() {
    let iso = Isolate::from_raw(1);
    let mut stack = ScopeStack::new();
    let exports = Handle::new(0, 80);
    let r = vm_bridge::context::initialize_module(&mut stack, iso, exports, |mut cx| {
        let flag = cx.boolean(true);
        let r = cx.export_value("flag", flag);
        (r, cx)
    });
    assert_eq!(r, Ok(()));
    assert_eq!(stack.depth(), 0);
}

#[test]
fn with_vm_dispatches_one_call_and_restores_the_stack() {
    let iso = Isolate::from_raw(1);
    let mut stack = ScopeStack::new();
    let a0 = Handle::new(0, 10);
    let info = info_with_args(false, vec![a0]);
    let (r, info) = info.with_vm(&mut stack, iso, |cx| {
        let r = cx.argument(0);
        (r, cx)
    });
    assert_eq!(r, Ok(a0));
    assert_eq!(stack.depth(), 0);
    assert_eq!(info.len(), 1);
}

#[test]
fn with_vm_reports_a_thrown_condition_and_still_exits() {
    let iso = Isolate::from_raw(1);
    let mut stack = ScopeStack::new();
    let info = info_with_args(false, vec![]);
    let (r, _info) = info.with_vm(&mut stack, iso, |cx| {
        let r = cx.argument(0);
        (r, cx)
    });
    assert_eq!(r, Err(Throw));
    assert_eq!(stack.depth(), 0);
}

#[test]
fn throw_names_the_pending_exception() {
    assert_eq!(Throw.message(), "JavaScript Error");
}
