//! The vocabulary of queues: a queue is a single agent that both produces and
//! consumes, so neither side can be withdrawn and no defect can occur.
use crate::agent::{Consumer, Producer};
use crate::flaw::{EmptyStock, Flawless, FullStock};
use vstd::prelude::*;

verus! {

/// A queue whose size is unbounded: storing never fails.
pub trait InfiniteQueue<G>: Consumer<Good = G, Flaws = EmptyStock> + Producer<
    Good = G,
    Flaws = Flawless,
> + Sized {
    /// Creates an unbounded queue.
    fn allocate(name_str: &str) -> Self;
}

/// A queue with a finite size: storing into a full queue fails transiently.
pub trait FiniteQueue<G>: Consumer<Good = G, Flaws = EmptyStock> + Producer<
    Good = G,
    Flaws = FullStock,
> + Sized {
    /// Creates a queue that holds at most `size` goods; the size must be at
    /// least one.
    fn allocate(name_str: &str, size: usize) -> Self
        requires
            size >= 1,
    ;
}

} // verus!
