//! Tasks of the kernel: what is handed to the kernel to create one, what the
//! kernel's answer means, and what a task does with its unit of work.
//!
//! Nothing here calls the kernel. The caller hands the description of a task
//! to the kernel together with the unit of work, and brings back the status.

use crate::errors::Error;
use vstd::prelude::*;
use vstd::string::*;

verus! {

/// The core number that stands for "any core".
pub const NO_AFFINITY: i32 = i32::MAX;

/// The status with which the kernel reports that it created a task.
pub const PD_PASS: i32 = 1;

/// Whether a sequence of bytes ends in a NUL byte.
pub open spec fn terminated(bytes: Seq<u8>) -> bool {
    bytes.len() > 0 && bytes.last() == 0
}

/// The core number handed to the kernel for an optional core.
pub open spec fn core_or_any(affinity: Option<i32>) -> i32 {
    match affinity {
        Some(core) => core,
        None => NO_AFFINITY,
    }
}

/// What the kernel is told of a task that it is asked to create.
///
/// The name of every such description ends in a NUL byte.
#[derive(Clone, Copy, Debug, PartialEq, Eq)]
pub struct Task {
    name: &'static str,
    stack_depth: u32,
    priority: u32,
    core_id: i32,
}

impl Task {
    #[verifier::type_invariant]
    spec fn named(self) -> bool {
        terminated(self.name.spec_bytes())
    }

    /// Name of the task.
    pub closed spec fn name_spec(&self) -> &'static str {
        self.name
    }

    /// Size of the task's stack.
    pub closed spec fn stack_depth_spec(&self) -> u32 {
        self.stack_depth
    }

    /// Priority at which the task runs.
    pub closed spec fn priority_spec(&self) -> u32 {
        self.priority
    }

    /// Core to which the task is pinned, or `NO_AFFINITY`.
    pub closed spec fn core_id_spec(&self) -> i32 {
        self.core_id
    }

    /// Name of the task, which ends in a NUL byte.
    #[verifier::when_used_as_spec(name_spec)]
    pub fn name(&self) -> (name: &'static str)
        ensures
            name == self.name_spec(),
            terminated(name.spec_bytes()),
    {
        proof {
            use_type_invariant(self);
        }
        self.name
    }

    /// Size of the task's stack.
    #[verifier::when_used_as_spec(stack_depth_spec)]
    pub fn stack_depth(&self) -> (stack_depth: u32)
        ensures
            stack_depth == self.stack_depth_spec(),
    {
        self.stack_depth
    }

    /// Priority at which the task runs.
    #[verifier::when_used_as_spec(priority_spec)]
    pub fn priority(&self) -> (priority: u32)
        ensures
            priority == self.priority_spec(),
    {
        self.priority
    }

    /// Core to which the task is pinned, or `NO_AFFINITY` for any core.
    #[verifier::when_used_as_spec(core_id_spec)]
    pub fn core_id(&self) -> (core_id: i32)
        ensures
            core_id == self.core_id_spec(),
    {
        self.core_id
    }
}

/// Describes the task to create for a unit of work.
///
/// A name that does not end in a NUL byte is refused with
/// `Error::UnterminatedName`, since the kernel reads the name up to its first
/// NUL byte. Every other name gives the description: name, stack depth and
/// priority as given, and the core asked for, or `NO_AFFINITY` for none.
pub fn spawn(name: &'static str, stack_depth: u32, priority: u32, affinity: Option<i32>) -> (r:
    Result<Task, Error>)
    ensures
        terminated(name.spec_bytes()) ==> r is Ok && r->Ok_0.name() == name
            && r->Ok_0.stack_depth() == stack_depth && r->Ok_0.priority() == priority
            && r->Ok_0.core_id() == core_or_any(affinity),
        !terminated(name.spec_bytes()) ==> r == Err::<Task, Error>(Error::UnterminatedName),
{
    let bytes = name.as_bytes();
    let len: usize = bytes.len();
    if len == 0 || bytes[len - 1] != 0 {
        return Err(Error::UnterminatedName);
    }
    Ok(Task { name, stack_depth, priority, core_id: affinity.unwrap_or(NO_AFFINITY) })
}

/// What became of a task, from the status with which the kernel answered the
/// call that creates it: the task exists exactly when the status is
/// `PD_PASS`; any other status comes back unchanged as the error.
pub fn created(status: i32) -> (r: Result<(), Error>)
    ensures
        status == PD_PASS ==> r == Ok::<(), Error>(()),
        status != PD_PASS ==> r == Err::<(), Error>(Error::TaskCreate(status)),
{
    if status == PD_PASS {
        Ok(())
    } else {
        Err(Error::TaskCreate(status))
    }
}

/// Runs a unit of work, once: what a task does between its start and its end.
///
/// The work is taken by value and called; after the call it is gone, so it
/// cannot run again.
pub fn run<F: FnOnce()>(work: F)
    requires
        call_requires(work, ()),
    ensures
        call_ensures(work, (), ()),
{
    work()
}

} // verus!
