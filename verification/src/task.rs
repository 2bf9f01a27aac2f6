//! The background-task execution and handoff protocol.
//!
//! A task is one logical computation split across the thread boundary: its
//! `perform` phase runs on a worker thread with no VM access and no scope,
//! and its `complete` phase runs back on the VM's control thread inside a
//! freshly entered scope, turning the plain result into a VM value for the
//! callback captured at scheduling time.
//!
//! Each phase runs exactly once, and `complete` strictly after `perform`.
//! The protocol enforces this twice over: operationally, each phase consumes
//! the task's current form by ownership, so no phase can rerun; and at the
//! model level, [`lemma_task_events_exactly_once`] proves that any event
//! sequence the protocol's state machine admits from scheduling to
//! completion contains each phase exactly once, in order.

use crate::context::{Handle, JsResult, TaskContext};
use crate::scope::{Isolate, ScopeStack};
use vstd::prelude::*;

verus! {

/// A unit of work whose computation runs off the VM's control thread and
/// whose completion runs back on it. Implemented by library users; the
/// payload must be safely transferable to the worker thread and must hold
/// no VM-scoped reference.
pub trait Task: Sized + Send {
    /// The computation's successful result, sent back to the VM thread.
    type Output: Send;

    /// The computation's failure result, sent back to the VM thread.
    type Error: Send;

    /// The computation phase. Runs on a worker thread with no scope and no
    /// VM access: its signature carries no scope or context at all, so no
    /// VM-scoped reference can be observed here — the only input is the
    /// task's own payload, which the `Send` bounds let cross the thread
    /// boundary.
    fn perform(&self) -> Result<Self::Output, Self::Error>;

    /// The completion phase. Runs on the VM's control thread inside a
    /// freshly entered scope, consuming the task and the computation's
    /// result to produce a VM value — or a thrown condition, in which case
    /// no value reaches the callback. The completion must stay within the
    /// scope it is handed: the context keeps its arena token, and a
    /// produced value is a handle of that scope.
    fn complete(self, cx: &mut TaskContext, result: Result<Self::Output, Self::Error>) -> (r:
        JsResult)
        requires
            old(cx)@.scope.active,
            old(cx)@.scope.handles == 0,
        ensures
            final (cx)@.scope.token == old(cx)@.scope.token,
            r matches Ok(h) ==> h.scope_token == old(cx)@.scope.token,
    ;

    /// Packages the task with its completion callback for the host
    /// scheduler. From here the task moves by ownership: the worker
    /// consumes the scheduled form and the VM thread the performed form, so
    /// each phase runs exactly once.
    fn schedule(self, callback: Handle) -> (t: ScheduledTask<Self>)
        ensures
            t.task == self,
            t.callback == callback,
    {
        ScheduledTask { task: self, callback }
    }
}

/// A task as handed to the host scheduler: not yet performed.
pub struct ScheduledTask<T: Task> {
    /// The user's payload.
    pub task: T,
    /// The VM function value to be invoked with the outcome, captured at
    /// scheduling time.
    pub callback: Handle,
}

/// A task whose computation has finished: its result awaits completion on
/// the VM's control thread.
pub struct PerformedTask<T: Task> {
    /// The user's payload.
    pub task: T,
    /// What the computation phase produced.
    pub result: Result<T::Output, T::Error>,
    /// The VM function value captured at scheduling time.
    pub callback: Handle,
}

/// What one completed task hands the host: the callback captured at
/// scheduling time, and the VM value for it — `None` when the completion
/// raised a thrown condition instead, so a dropped value is observable to
/// the caller rather than silent.
pub struct CompletionOutcome {
    /// The VM function value captured at scheduling time.
    pub callback: Handle,
    /// The VM value the completion produced, if it produced one.
    pub value: Option<Handle>,
}

/// The computation phase of one scheduled task. Runs on a worker thread: it
/// touches no scope and no VM state, only the task's own payload. The
/// scheduled form is consumed, so the computation runs exactly once per
/// task; payload and callback move on unchanged.
pub fn perform_task<T: Task>(t: ScheduledTask<T>) -> (p: PerformedTask<T>)
    ensures
        p.task == t.task,
        p.callback == t.callback,
        call_ensures(T::perform, (&t.task,), p.result),
{
    let result = t.task.perform();
    PerformedTask { task: t.task, result, callback: t.callback }
}

/// The completion phase of one performed task, on the VM's control thread:
/// enters a fresh scope on `stack` (one new arena token is issued), hands
/// the computation's result — exactly as performed — to the task's
/// completion inside it, and exits the scope again: on return the stack
/// holds exactly the entries it held before, whether or not the completion
/// produced a value. The outcome carries the completion's value, a handle
/// of the fresh scope, or `None` for a thrown condition. The performed form
/// is consumed, so completion runs exactly once per task.
pub fn complete_task<T: Task>(t: PerformedTask<T>, stack: &mut ScopeStack, isolate: Isolate) -> (o:
    CompletionOutcome)
    requires
        old(stack).wf(),
        old(stack)@.next < u64::MAX,
    ensures
        final (stack).wf(),
        final (stack)@.entries == old(stack)@.entries,
        final (stack)@.next == old(stack)@.next + 1,
        o.callback == t.callback,
        exists|cx: &mut TaskContext, r: JsResult|
            {
                &&& mut_ref_current(cx)@.scope.active
                &&& mut_ref_current(cx)@.scope.isolate == isolate
                &&& mut_ref_current(cx)@.scope.handles == 0
                &&& mut_ref_current(cx)@.scope.token == old(stack)@.next
                &&& #[trigger] call_ensures(T::complete, (t.task, cx, t.result), r)
                &&& o.value == (match r {
                    Ok(h) => Some(h),
                    Err(_) => None,
                })
            },
        o.value matches Some(h) ==> h.scope_token == old(stack)@.next,
{
    let scope = stack.enter(isolate);
    let mut cx = TaskContext::new(scope);
    let callback = t.callback;
    let value = match t.task.complete(&mut cx, t.result) {
        Ok(h) => Some(h),
        Err(_) => None,
    };
    let scope = cx.into_scope();
    stack.exit(scope);
    proof {
        assert(stack@.entries =~= old(stack)@.entries);
    }
    CompletionOutcome { callback, value }
}


/// The phases of one task's life, in protocol order.
pub enum TaskPhase {
    /// Handed to the scheduler; the computation has not started.
    Scheduled,
    /// The computation is running on a worker thread.
    Performing,
    /// The computation's result has crossed back to the VM thread and
    /// awaits completion.
    Completing,
    /// The completion has run; the task's resources are released.
    Done,
}

/// The observable events of the protocol: the computation starting, its
/// result crossing back to the VM thread, and the completion running.
pub enum TaskEvent {
    Perform,
    HandOff,
    Complete,
}

/// How far along the protocol a phase is.
pub open spec fn phase_index(p: TaskPhase) -> int {
    match p {
        TaskPhase::Scheduled => 0,
        TaskPhase::Performing => 1,
        TaskPhase::Completing => 2,
        TaskPhase::Done => 3,
    }
}

/// One step of the protocol: which event each phase admits, and the phase
/// it leads to. No phase repeats and none is skipped.
pub open spec fn task_step(p: TaskPhase, e: TaskEvent) -> Option<TaskPhase> {
    match (p, e) {
        (TaskPhase::Scheduled, TaskEvent::Perform) => Some(TaskPhase::Performing),
        (TaskPhase::Performing, TaskEvent::HandOff) => Some(TaskPhase::Completing),
        (TaskPhase::Completing, TaskEvent::Complete) => Some(TaskPhase::Done),
        _ => None,
    }
}

/// Runs a sequence of events through the protocol from phase `p`; `None`
/// when some event is not admitted where it occurs.
pub open spec fn task_run(p: TaskPhase, es: Seq<TaskEvent>) -> Option<TaskPhase>
    decreases es.len(),
{
    if es.len() == 0 {
        Some(p)
    } else {
        match task_step(p, es.first()) {
            Some(q) => task_run(q, es.drop_first()),
            None => None,
        }
    }
}

/// Every admitted event advances the protocol by exactly one phase.
proof fn lemma_task_run_advances(p: TaskPhase, es: Seq<TaskEvent>)
    requires
        task_run(p, es) is Some,
    ensures
        phase_index(task_run(p, es).unwrap()) == phase_index(p) + es.len(),
    decreases es.len(),
{
    if es.len() > 0 {
        lemma_task_run_advances(task_step(p, es.first()).unwrap(), es.drop_first());
    }
}

/// `perform` runs exactly once and `complete` runs exactly once, strictly
/// after `perform` has returned: any event sequence the protocol admits
/// from scheduling to completion is exactly the computation, then the
/// handoff, then the completion — each once, in that order.
pub proof fn lemma_task_events_exactly_once(es: Seq<TaskEvent>)
    requires
        task_run(TaskPhase::Scheduled, es) == Some(TaskPhase::Done),
    ensures
        es =~= seq![TaskEvent::Perform, TaskEvent::HandOff, TaskEvent::Complete],
{
    lemma_task_run_advances(TaskPhase::Scheduled, es);
    assert(es.len() == 3);
    let es1 = es.drop_first();
    let es2 = es1.drop_first();
    assert(task_step(TaskPhase::Scheduled, es.first()) is Some);
    assert(es.first() == TaskEvent::Perform);
    assert(task_run(TaskPhase::Performing, es1) == Some(TaskPhase::Done));
    assert(task_step(TaskPhase::Performing, es1.first()) is Some);
    assert(es1.first() == TaskEvent::HandOff);
    assert(task_run(TaskPhase::Completing, es2) == Some(TaskPhase::Done));
    assert(task_step(TaskPhase::Completing, es2.first()) is Some);
    assert(es2.first() == TaskEvent::Complete);
    assert(es[1] == es1[0]);
    assert(es[2] == es1[1] && es1[1] == es2[0]);
}

} // verus!
