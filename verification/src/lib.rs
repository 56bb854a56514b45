//! CPU-bandwidth partitioning for a fixed pool of worker threads.
//!
//! The library builds a static hierarchy of OS resource-control groups
//! (root, one aggregate group, one leaf group per worker), assigns worker
//! thread identifiers to leaf groups in equal chunks, converts percentage
//! requests into period/quota pairs, derives status reports, and drives a
//! single-threaded control loop. All decisions and conversions are verified;
//! the calls that touch the control-group filesystem stand behind small
//! trusted wrappers.

pub mod assign;
pub mod cgfs;
pub mod control;
pub mod events;
pub mod hierarchy;
pub mod pool;
pub mod quota;
pub mod report;
pub mod text;
