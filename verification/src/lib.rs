//! A safety bridge for native code that observes and mutates objects owned by
//! an externally managed, garbage-collected virtual machine.
//!
//! The bridge has three parts:
//! - a stack-discipline handle [`scope`] that bounds the lifetime of every
//!   reference to VM-managed memory,
//! - a dynamic borrow [`ledger`] with scoped [`guard`] tokens that arbitrate
//!   shared and exclusive access to VM-owned buffers, and
//! - a [`task`] protocol that runs a computation off the VM's control thread
//!   and hands its result back inside a freshly entered scope, each phase
//!   exactly once.
//!
//! Around them, [`context`] gives each boundary crossing from the VM into
//! native code its capability surface, and [`registry`] keeps the
//! per-isolate class metadata that exported classes need.

pub mod context;
pub mod guard;
pub mod ledger;
pub mod registry;
pub mod scope;
pub mod task;
