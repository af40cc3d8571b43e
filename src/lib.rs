//! A write-behind buffer for bulk database writes.
//!
//! Producers append entities to an [`upload_queue::UploadQueue`]; a drain
//! cycle takes a bounded batch, oldest first, and writes it in one bulk call,
//! retrying a fixed number of times as [`drain_cycle::DrainCycle`] decides.
//! [`history`] states what any interleaving of appends and drains keeps.
use vstd::prelude::*;

pub mod drain_cycle;
pub mod history;
pub mod settings;
pub mod upload_queue;

verus! {

} // verus!
