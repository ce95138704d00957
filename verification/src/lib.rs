//! Task, time and notification primitives for a two-core FreeRTOS target,
//! together with the event-driven Wi-Fi provisioning state machine that runs
//! on top of them.
//!
//! The kernel itself (scheduler, event groups, notification words) lives on
//! the other side of a C boundary; this crate holds the decision logic that
//! drives it: duration conversion, task spawn preparation, the notification
//! merge rules, the event-group bitset semantics, the lifecycle of a spawned
//! unit of work, and the provisioning event handler.

pub mod errors;
pub mod event_group;
pub mod freertos_task;
pub mod freertos_units;
pub mod notification;
pub mod provisioning;
pub mod spawn;
