//! Combinators for synchronous, non-blocking exchanges of goods between
//! producers and consumers, with a fault model that separates transient
//! shortages from permanent defects.

pub mod agent;
pub mod channel;
pub mod channel_crossbeam;
pub mod channel_std;
pub mod collections;
pub mod compose;
pub mod convert;
pub mod flaw;
pub mod io;
pub mod process;
pub mod queue;
pub mod queue_crossbeam;
