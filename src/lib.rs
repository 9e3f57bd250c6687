// Conversation segmentation: a per-conversation message queue with atomic
// prefix drains, the segment and create job handlers as state machines, and
// the worker pool's shutdown lifecycle.

pub mod message;
pub mod queue;
pub mod error;
pub mod jobs;
pub mod segment;
pub mod runtime;
pub mod create;
pub mod dispatch;
