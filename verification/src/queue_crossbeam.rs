//! Lock-free queues of the crossbeam library presented as agents that both
//! produce and consume.
use crate::agent::{Agent, Consumer, Producer};
use crate::flaw::{EmptyStock, Failure, Fault, Flawless, FullStock, Recall};
use crate::queue::{FiniteQueue, InfiniteQueue};
use std::sync::Arc;
use vstd::prelude::*;

verus! {

/// The unbounded lock-free queue of the crossbeam library.
#[verifier::external_type_specification]
#[verifier::external_body]
#[verifier::reject_recursive_types(G)]
pub struct ExSegQueue<G>(crossbeam_queue::SegQueue<G>);

/// The bounded lock-free queue of the crossbeam library.
#[verifier::external_type_specification]
#[verifier::external_body]
#[verifier::reject_recursive_types(G)]
pub struct ExArrayQueue<G>(crossbeam_queue::ArrayQueue<G>);

/// Relies on crossbeam_queue::SegQueue::new: creates an empty unbounded
/// queue.
#[verifier::external_body]
fn seg_queue_new<G>() -> crossbeam_queue::SegQueue<G> {
    crossbeam_queue::SegQueue::new()
}

/// Relies on crossbeam_queue::SegQueue::push: it always accepts the good.
#[verifier::external_body]
fn seg_queue_push<G>(queue: &Arc<crossbeam_queue::SegQueue<G>>, good: G) {
    queue.push(good)
}

/// Relies on crossbeam_queue::SegQueue::pop: returns a good, or nothing where
/// the queue is empty right now.
#[verifier::external_body]
fn seg_queue_pop<G>(queue: &Arc<crossbeam_queue::SegQueue<G>>) -> Option<G> {
    queue.pop()
}

/// Relies on crossbeam_queue::ArrayQueue::new: creates an empty queue holding
/// at most `size` goods; it panics on a size of zero, which the precondition
/// rules out.
#[verifier::external_body]
fn array_queue_new<G>(size: usize) -> crossbeam_queue::ArrayQueue<G>
    requires
        size >= 1,
{
    crossbeam_queue::ArrayQueue::new(size)
}

/// Relies on crossbeam_queue::ArrayQueue::push: on failure (full queue) the
/// error carries the good back.
#[verifier::external_body]
fn array_queue_push<G>(queue: &Arc<crossbeam_queue::ArrayQueue<G>>, good: G) -> (r: Result<(), G>)
    ensures
        r matches Err(returned) ==> returned == good,
{
    queue.push(good)
}

/// Relies on crossbeam_queue::ArrayQueue::pop: returns a good, or nothing
/// where the queue is empty right now.
#[verifier::external_body]
fn array_queue_pop<G>(queue: &Arc<crossbeam_queue::ArrayQueue<G>>) -> Option<G> {
    queue.pop()
}

/// An unbounded queue: a producer that never fails and a consumer whose one
/// failure is a transient shortage.
#[verifier::reject_recursive_types(G)]
pub struct CrossbeamInfiniteQueue<G> {
    /// The name of the queue.
    name: String,
    /// The queue.
    queue: Arc<crossbeam_queue::SegQueue<G>>,
}

impl<G> CrossbeamInfiniteQueue<G> {
    /// The name given at allocation.
    pub closed spec fn name_spec(self) -> Seq<char> {
        self.name@
    }

    /// The name given at allocation.
    pub fn name(&self) -> (r: &String)
        ensures
            r@ == self.name_spec(),
    {
        &self.name
    }
}

impl<G> Agent for CrossbeamInfiniteQueue<G> {
    type Good = G;
}

impl<G> Consumer for CrossbeamInfiniteQueue<G> {
    type Flaws = EmptyStock;

    /// Attempts once to take the oldest good out of the queue; an empty queue
    /// is a transient shortage.
    fn consume(&mut self) -> (r: Result<G, Failure<EmptyStock>>)
        ensures
            r matches Err(failure) ==> failure.fault == Fault::<EmptyStock>::Insufficiency(
                EmptyStock,
            ),
    {
        match seg_queue_pop(&self.queue) {
            Some(good) => Ok(good),
            None => Err(Failure::new(Fault::Insufficiency(EmptyStock::new()))),
        }
    }
}

impl<G> Producer for CrossbeamInfiniteQueue<G> {
    type Flaws = Flawless;

    /// Stores `good`; an unbounded queue never rejects one.
    fn produce(&mut self, good: G) -> (r: Result<(), Recall<Flawless, G>>)
        ensures
            r is Ok,
    {
        seg_queue_push(&self.queue, good);
        Ok(())
    }
}

impl<G> InfiniteQueue<G> for CrossbeamInfiniteQueue<G> {
    /// Creates an empty unbounded queue named `name_str`.
    fn allocate(name_str: &str) -> Self {
        CrossbeamInfiniteQueue { name: name_str.to_owned(), queue: Arc::new(seg_queue_new()) }
    }
}

/// A bounded queue: a producer whose one failure is a transient fullness and
/// a consumer whose one failure is a transient shortage.
#[verifier::reject_recursive_types(G)]
pub struct CrossbeamFiniteQueue<G> {
    /// The name of the queue.
    name: String,
    /// The queue.
    queue: Arc<crossbeam_queue::ArrayQueue<G>>,
}

impl<G> CrossbeamFiniteQueue<G> {
    /// The name given at allocation.
    pub closed spec fn name_spec(self) -> Seq<char> {
        self.name@
    }

    /// The name given at allocation.
    pub fn name(&self) -> (r: &String)
        ensures
            r@ == self.name_spec(),
    {
        &self.name
    }
}

impl<G> Agent for CrossbeamFiniteQueue<G> {
    type Good = G;
}

impl<G> Consumer for CrossbeamFiniteQueue<G> {
    type Flaws = EmptyStock;

    /// Attempts once to take the oldest good out of the queue; an empty queue
    /// is a transient shortage.
    fn consume(&mut self) -> (r: Result<G, Failure<EmptyStock>>)
        ensures
            r matches Err(failure) ==> failure.fault == Fault::<EmptyStock>::Insufficiency(
                EmptyStock,
            ),
    {
        match array_queue_pop(&self.queue) {
            Some(good) => Ok(good),
            None => Err(Failure::new(Fault::Insufficiency(EmptyStock::new()))),
        }
    }
}

impl<G> Producer for CrossbeamFiniteQueue<G> {
    type Flaws = FullStock;

    /// Attempts once to store `good`; a full queue is a transient shortage,
    /// and the recall then returns `good` untouched.
    fn produce(&mut self, good: G) -> (r: Result<(), Recall<FullStock, G>>)
        ensures
            r matches Err(recall) ==> recall.fault == Fault::<FullStock>::Insufficiency(
                FullStock,
            ),
    {
        match array_queue_push(&self.queue, good) {
            Ok(()) => Ok(()),
            Err(returned) => Err(Recall::new(Fault::Insufficiency(FullStock::new()), returned)),
        }
    }
}

impl<G> FiniteQueue<G> for CrossbeamFiniteQueue<G> {
    /// Creates an empty queue named `name_str` holding at most `size` goods.
    fn allocate(name_str: &str, size: usize) -> Self {
        CrossbeamFiniteQueue {
            name: name_str.to_owned(),
            queue: Arc::new(array_queue_new(size)),
        }
    }
}

} // verus!
