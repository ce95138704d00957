//! Task configuration: cores, priorities, notifications, and the builder
//! that turns a fluent configuration into a validated spawn request.
//!
//! Creating the task, running its work and deleting it again happen on the
//! kernel's side of the C boundary; everything the scheduler is handed is
//! prepared and checked here first.

use crate::errors::Error;
use vstd::prelude::*;
use vstd::string::StringSliceAdditionalSpecFns;
use vstd::utf8::encode_utf8;

verus! {

/// Notify action code: leave the notification word unchanged.
pub const E_NO_ACTION: u32 = 0;

/// Notify action code: or a value into the notification word.
pub const E_SET_BITS: u32 = 1;

/// Notify action code: increment the notification word.
pub const E_INCREMENT: u32 = 2;

/// Notify action code: overwrite the notification word unconditionally.
pub const E_SET_VALUE_WITH_OVERWRITE: u32 = 3;

/// Notify action code: set the notification word only if none is pending.
pub const E_SET_VALUE_WITHOUT_OVERWRITE: u32 = 4;

/// Core id handed to the scheduler when a task may run on either core.
pub const TSK_NO_AFFINITY: i32 = i32::MAX;

/// One of the two fixed cores of the target.
#[derive(Copy, Debug, Clone, PartialEq, Eq, Structural)]
pub enum Cpu {
    Pro,
    App,
}

impl Cpu {
    /// The kernel's numeric id of this core.
    pub open spec fn spec_core_id(self) -> i32 {
        match self {
            Cpu::Pro => 0,
            Cpu::App => 1,
        }
    }
}

/// Where a task may be scheduled: pinned to one core, or on either.
#[derive(Copy, Debug, Clone, PartialEq, Eq, Structural)]
pub enum CpuAffinity {
    Cpu(Cpu),
    NoAffinity,
}

impl CpuAffinity {
    /// The core argument of the scheduler's create call.
    pub open spec fn spec_core_id(self) -> i32 {
        match self {
            CpuAffinity::Cpu(cpu) => cpu.spec_core_id(),
            CpuAffinity::NoAffinity => TSK_NO_AFFINITY,
        }
    }

    pub fn as_core_id(self) -> (r: i32)
        ensures
            r == self.spec_core_id(),
    {
        match self {
            CpuAffinity::Cpu(Cpu::Pro) => 0,
            CpuAffinity::Cpu(Cpu::App) => 1,
            CpuAffinity::NoAffinity => TSK_NO_AFFINITY,
        }
    }
}

/// Task's execution priority. Low priority numbers denote low priority
/// tasks; the scheduler, not this layer, rejects out-of-range values.
#[derive(Debug, Copy, Clone, PartialEq, Eq, Structural)]
pub struct TaskPriority(pub u8);

impl TaskPriority {
    /// The priority word of the scheduler's create call.
    pub fn to_freertos(&self) -> (r: u32)
        ensures
            r == self.0 as u32,
    {
        self.0 as u32
    }
}

/// Notification to be sent to a task: a delta to its 32-bit notification
/// word plus an action tag. There is no queue; a second send before the
/// word is consumed merges with or replaces the first.
#[derive(Debug, Copy, Clone, PartialEq, Eq, Structural)]
pub enum TaskNotification {
    /// Send the event, unblock the task, the task's notification value
    /// isn't changed.
    NoAction,
    /// Perform a logical or with the task's notification value.
    SetBits(u32),
    /// Increment the task's notification value by one.
    Increment,
    /// Set the task's notification value to this value.
    OverwriteValue(u32),
    /// Try to set the task's notification value to this value. Succeeds
    /// only if the task has no pending notifications. Otherwise, the
    /// notification call will fail.
    SetValue(u32),
}

impl TaskNotification {
    /// The (value, action code) pair of the kernel's notify primitive.
    pub open spec fn spec_to_freertos(self) -> (u32, u32) {
        match self {
            TaskNotification::NoAction => (0u32, E_NO_ACTION),
            TaskNotification::SetBits(v) => (v, E_SET_BITS),
            TaskNotification::Increment => (0u32, E_INCREMENT),
            TaskNotification::OverwriteValue(v) => (v, E_SET_VALUE_WITH_OVERWRITE),
            TaskNotification::SetValue(v) => (v, E_SET_VALUE_WITHOUT_OVERWRITE),
        }
    }

    pub fn to_freertos(&self) -> (r: (u32, u32))
        ensures
            r == self.spec_to_freertos(),
    {
        match *self {
            TaskNotification::NoAction => (0, E_NO_ACTION),
            TaskNotification::SetBits(v) => (v, E_SET_BITS),
            TaskNotification::Increment => (0, E_INCREMENT),
            TaskNotification::OverwriteValue(v) => (v, E_SET_VALUE_WITH_OVERWRITE),
            TaskNotification::SetValue(v) => (v, E_SET_VALUE_WITHOUT_OVERWRITE),
        }
    }
}

/// Everything the scheduler's create call needs, validated and encoded:
/// the task name as NUL-terminated bytes, and the raw configuration words.
pub struct TaskSpawnRequest {
    pub name_with_nul: Vec<u8>,
    pub stack_size: u32,
    pub priority: u32,
    pub core_id: i32,
}

/// Relies on `cstr_core::CString::new` and `CString::into_bytes_with_nul`:
/// the constructor fails exactly when the bytes hold an interior NUL, and
/// otherwise the conversion yields the argument's UTF-8 bytes with one
/// terminating NUL appended.
#[verifier::external_body]
fn c_string_bytes(name: &str) -> (r: Result<Vec<u8>, Error>)
    ensures
        r is Ok <==> !name.spec_bytes().contains(0u8),
        r matches Ok(v) ==> v@ == name.spec_bytes().push(0u8),
        r matches Err(e) ==> e == Error::NotSupported,
{
    match cstr_core::CString::new(name) {
        Ok(c) => Ok(c.into_bytes_with_nul()),
        Err(_) => Err(Error::NotSupported),
    }
}

/// Helper for spawning a new task: fluent configuration of name, stack
/// size, priority and core affinity, with safe defaults.
pub struct TaskBuilder<'a> {
    task_name: &'a str,
    task_stack_size: u32,
    task_priority: TaskPriority,
    cpu_affinity: CpuAffinity,
}

impl<'a> TaskBuilder<'a> {
    /// The configured task name.
    pub closed spec fn spec_name(&self) -> Seq<char> {
        self.task_name@
    }

    /// The UTF-8 bytes of the configured task name.
    pub open spec fn spec_name_bytes(&self) -> Seq<u8> {
        encode_utf8(self.spec_name())
    }

    /// The configured stack size, in words.
    pub closed spec fn spec_stack_size(&self) -> u32 {
        self.task_stack_size
    }

    /// The configured priority.
    pub closed spec fn spec_priority(&self) -> u8 {
        self.task_priority.0
    }

    /// The configured core affinity.
    pub closed spec fn spec_affinity(&self) -> CpuAffinity {
        self.cpu_affinity
    }

    /// A builder with the defaults: a generic name, a minimum safe stack,
    /// the lowest non-idle priority, and no core affinity.
    pub fn new() -> (r: TaskBuilder<'static>)
        ensures
            r.spec_name() == "generic_rust_task"@,
            r.spec_stack_size() == 2048,
            r.spec_priority() == 1,
            r.spec_affinity() == CpuAffinity::NoAffinity,
    {
        TaskBuilder {
            task_name: "generic_rust_task",
            task_stack_size: 2048,
            task_priority: TaskPriority(1),
            cpu_affinity: CpuAffinity::NoAffinity,
        }
    }

    /// Set the task's name.
    pub fn name<'b>(self, name: &'b str) -> (r: TaskBuilder<'b>) where 'a: 'b
        ensures
            r.spec_name() == name@,
            r.spec_stack_size() == self.spec_stack_size(),
            r.spec_priority() == self.spec_priority(),
            r.spec_affinity() == self.spec_affinity(),
    {
        TaskBuilder { task_name: name, ..self }
    }

    /// Set the stack size, in words.
    pub fn stack_size(self, stack_size: u32) -> (r: Self)
        ensures
            r.spec_name() == self.spec_name(),
            r.spec_stack_size() == stack_size,
            r.spec_priority() == self.spec_priority(),
            r.spec_affinity() == self.spec_affinity(),
    {
        TaskBuilder { task_stack_size: stack_size, ..self }
    }

    /// Set the task's priority.
    pub fn priority(self, priority: TaskPriority) -> (r: Self)
        ensures
            r.spec_name() == self.spec_name(),
            r.spec_stack_size() == self.spec_stack_size(),
            r.spec_priority() == priority.0,
            r.spec_affinity() == self.spec_affinity(),
    {
        TaskBuilder { task_priority: priority, ..self }
    }

    /// Set the task's CPU affinity; it is fixed at spawn time.
    pub fn core_affinity(self, affinity: CpuAffinity) -> (r: Self)
        ensures
            r.spec_name() == self.spec_name(),
            r.spec_stack_size() == self.spec_stack_size(),
            r.spec_priority() == self.spec_priority(),
            r.spec_affinity() == affinity,
    {
        TaskBuilder { cpu_affinity: affinity, ..self }
    }

    /// The pure half of spawning: validate and encode the configuration
    /// before any kernel call. Fails exactly when the name holds an
    /// embedded terminator byte, with the encoding error, so a failed
    /// spawn is reported before the scheduler is ever involved.
    pub fn prepare(&self) -> (r: Result<TaskSpawnRequest, Error>)
        ensures
            r is Ok <==> !self.spec_name_bytes().contains(0u8),
            r matches Ok(req) ==> {
                &&& req.name_with_nul@ == self.spec_name_bytes().push(0u8)
                &&& req.stack_size == self.spec_stack_size()
                &&& req.priority == self.spec_priority() as u32
                &&& req.core_id == self.spec_affinity().spec_core_id()
            },
            r matches Err(e) ==> e == Error::NotSupported,
    {
        match c_string_bytes(self.task_name) {
            Ok(name_with_nul) => Ok(
                TaskSpawnRequest {
                    name_with_nul,
                    stack_size: self.task_stack_size,
                    priority: self.task_priority.to_freertos(),
                    core_id: self.cpu_affinity.as_core_id(),
                },
            ),
            Err(e) => Err(e),
        }
    }
}

} // verus!
