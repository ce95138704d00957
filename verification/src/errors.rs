//! Error taxonomy of the runtime wrapper, and the mapping from raw FreeRTOS
//! status codes to typed results.

use vstd::prelude::*;

verus! {

/// `pdPASS`: the kernel accepted the request.
pub const PD_PASS: i32 = 1;

/// `pdFAIL`: the kernel refused the request (for a notification send, a value
/// was already pending; for a wait, the timeout expired).
pub const PD_FAIL: i32 = 0;

/// `errCOULD_NOT_ALLOCATE_REQUIRED_MEMORY`: task creation ran out of kernel
/// heap.
pub const ERR_COULD_NOT_ALLOCATE_REQUIRED_MEMORY: i32 = -1;

/// What can go wrong in this layer: a name that the foreign string form
/// cannot carry, a context with no kernel-visible task, exhausted kernel
/// resources, an expired wait, or a notification slot that is already
/// occupied.
#[derive(Clone, Copy, Debug, PartialEq, Eq, Structural)]
pub enum Error {
    /// A supplied string cannot be encoded for the kernel (embedded
    /// terminator byte).
    NotSupported,
    /// No task handle exists for the calling context.
    NotFound,
    /// The scheduler could not allocate the resources for a new task.
    OutOfMemory,
    /// A blocking wait ended without the awaited condition.
    Timeout,
    /// A `SetValue` send found a notification already pending.
    NotificationPending,
}

/// `ESP_OK`: an SDK call succeeded.
pub const ESP_OK: i32 = 0;

/// Raw status word returned by an SDK call (network stack, event
/// dispatcher, provisioning service). Anything but `ESP_OK` is an error
/// code, which this firmware treats as fatal: the caller logs a
/// diagnostic and aborts, since no supervisory layer stands above it.
#[derive(Clone, Copy, Debug, PartialEq, Eq, Structural)]
pub struct EspError(pub i32);

impl EspError {
    pub fn into_result(self) -> (r: Result<(), EspError>)
        ensures
            r is Ok <==> self.0 == ESP_OK,
            r is Err ==> r == Err::<(), EspError>(self),
    {
        if self.0 == ESP_OK {
            Ok(())
        } else {
            Err(self)
        }
    }
}

/// Raw status word returned by a FreeRTOS primitive.
#[derive(Clone, Copy, Debug, PartialEq, Eq, Structural)]
pub struct FreeRtosStatus(pub i32);

impl FreeRtosStatus {
    /// Result of a task-creation call: anything but `pdPASS` means the
    /// scheduler could not allocate the task.
    pub fn into_create_result(self) -> (r: Result<(), Error>)
        ensures
            r is Ok <==> self.0 == PD_PASS,
            r is Err ==> r == Err::<(), Error>(Error::OutOfMemory),
    {
        if self.0 == PD_PASS {
            Ok(())
        } else {
            Err(Error::OutOfMemory)
        }
    }

    /// Result of a notification send: `pdFAIL` only ever reports a
    /// `SetValue` send that found a notification pending.
    pub fn into_notify_result(self) -> (r: Result<(), Error>)
        ensures
            r is Ok <==> self.0 == PD_PASS,
            r is Err ==> r == Err::<(), Error>(Error::NotificationPending),
    {
        if self.0 == PD_PASS {
            Ok(())
        } else {
            Err(Error::NotificationPending)
        }
    }

    /// Result of a notification wait: `pdFAIL` means the timeout expired
    /// before a notification arrived.
    pub fn into_wait_result(self, value: u32) -> (r: Result<u32, Error>)
        ensures
            r is Ok <==> self.0 == PD_PASS,
            self.0 == PD_PASS ==> r == Ok::<u32, Error>(value),
            r is Err ==> r == Err::<u32, Error>(Error::Timeout),
    {
        if self.0 == PD_PASS {
            Ok(value)
        } else {
            Err(Error::Timeout)
        }
    }
}

} // verus!
