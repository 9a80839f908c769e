//! Buffering of log events produced by speculative transaction execution.
//!
//! Events are recorded per transaction index while transactions execute (and
//! possibly re-execute), cleared when an execution attempt aborts, and handed
//! out in transaction-index order once the block has committed.

pub mod events;
pub mod handle;
pub mod laws;
