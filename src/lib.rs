//! Per-thread tracking of the active allocation group.
//!
//! A wrapping allocator asks a [`GroupStack`] which allocation group is active
//! so that it can attribute each allocation to the code that caused it.

mod group;
mod stack;

pub use group::{AllocationGroupId, ROOT_RAW};
pub use stack::{is_current, GroupStack, CAPACITY};
mod laws;

pub use laws::{
    StackOp, disciplined, lemma_current_is_latest_live_push, lemma_depth_limits,
    lemma_fresh_stack_current_is_root, lemma_pop_on_empty_refused, lemma_push_pop_round_trip,
    lemma_scope_restores_stack, live_top, stack_after,
};
mod sentry_metrics;

pub use sentry_metrics::{full_metric_name, metric_name, SentryMetricsSink, SentrySinkConfig};
