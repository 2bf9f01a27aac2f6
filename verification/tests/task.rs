use vm_bridge::context::{Handle, JsResult, TaskContext, Throw};
use vm_bridge::scope::{Isolate, ScopeStack};
use vm_bridge::task::{complete_task, perform_task, Task};

struct AddTask {
    left: u32,
    right: u32,
}

impl Task for AddTask {
    type Output = u32;
    type Error = String;

    fn perform(&self) -> Result<u32, String> {
        Ok(self.left + self.right)
    }

    fn complete(self, cx: &mut TaskContext, result: Result<u32, String>) -> JsResult {
        match result {
            // a handle standing for the VM number produced from the result
            Ok(n) => Ok(Handle::new(cx.scope().token(), n as u64)),
            Err(_) => Err(Throw),
        }
    }
}

struct FailingTask;

impl Task for FailingTask {
    type Output = u32;
    type Error = String;

    fn perform(&self) -> Result<u32, String> {
        Err(String::from("no result"))
    }

    fn complete(self, cx: &mut TaskContext, result: Result<u32, String>) -> JsResult {
        match result {
            Ok(n) => Ok(Handle::new(cx.scope().token(), n as u64)),
            Err(_) => Err(Throw),
        }
    }
}

#[test]
fn scheduled_task_performs_to_forty_two() {
    let callback = Handle::new(0, 77);
    let scheduled = AddTask { left: 40, right: 2 }.schedule(callback);
    assert_eq!(scheduled.callback, callback);
    let performed = perform_task(scheduled);
    assert_eq!(performed.result, Ok(42));
    assert_eq!(performed.callback, callback);
}

#[test]
fn completion_receives_the_result_and_reaches_the_callback() {
    let callback = Handle::new(0, 77);
    let scheduled = AddTask { left: 40, right: 2 }.schedule(callback);
    let performed = perform_task(scheduled);
    let iso = Isolate::from_raw(1);
    let mut stack = ScopeStack::new();
    let outcome = complete_task(performed, &mut stack, iso);
    assert_eq!(outcome.callback, callback);
    // the completion saw Ok(42) and produced a value standing for 42,
    // allotted inside the freshly entered scope (the stack's first token)
    assert_eq!(outcome.value, Some(Handle::new(0, 42)));
}

#[test]
fn completion_runs_inside_a_fresh_scope_and_leaves_the_stack_as_it_was() {
    let iso = Isolate::from_raw(1);
    let mut stack = ScopeStack::new();
    let outer = stack.enter(iso);
    assert_eq!(stack.depth(), 1);
    let performed = perform_task(AddTask { left: 1, right: 2 }.schedule(Handle::new(0, 7)));
    let outcome = complete_task(performed, &mut stack, iso);
    assert_eq!(stack.depth(), 1);
    // the value was allotted in the task's own scope, not the outer one
    assert_ne!(outcome.value.unwrap().scope_token, outer.token());
    stack.exit(outer);
}

#[test]
fn failed_conversion_is_observable_as_a_missing_value() {
    let callback = Handle::new(0, 9);
    let performed = perform_task(FailingTask.schedule(callback));
    assert_eq!(performed.result, Err(String::from("no result")));
    let iso = Isolate::from_raw(1);
    let mut stack = ScopeStack::new();
    let outcome = complete_task(performed, &mut stack, iso);
    assert_eq!(outcome.callback, callback);
    assert_eq!(outcome.value, None);
    assert_eq!(stack.depth(), 0);
}
