//! The vocabulary of channels: a channel exchanges goods between producers
//! and consumers; when every agent on one side is gone, the other side's
//! attempts fail permanently.
use crate::agent::{Consumer, Producer};
use crate::flaw::{ConsumptionFlaws, Flawless, Flaws, ProductionFlaws, Widen};
use vstd::prelude::*;

verus! {

/// The defect thrown when producing to a channel whose consumers are all
/// gone.
#[derive(Clone, Copy, Debug, PartialEq, Eq, Structural)]
pub struct WithdrawnDemand;

impl WithdrawnDemand {
    /// Creates the withdrawn-demand defect.
    pub fn new() -> (r: Self)
        ensures
            r == (WithdrawnDemand {}),
    {
        WithdrawnDemand
    }
}

impl Flaws for WithdrawnDemand {
    type Insufficiency = Flawless;
    type Defect = WithdrawnDemand;
}

impl Widen<WithdrawnDemand> for WithdrawnDemand {
    open spec fn widen_spec(narrow: WithdrawnDemand) -> WithdrawnDemand {
        narrow
    }

    fn widen(narrow: WithdrawnDemand) -> WithdrawnDemand {
        narrow
    }
}

/// The defect thrown when consuming from an empty channel whose producers are
/// all gone.
#[derive(Clone, Copy, Debug, PartialEq, Eq, Structural)]
pub struct WithdrawnSupply;

impl WithdrawnSupply {
    /// Creates the withdrawn-supply defect.
    pub fn new() -> (r: Self)
        ensures
            r == (WithdrawnSupply {}),
    {
        WithdrawnSupply
    }
}

impl Flaws for WithdrawnSupply {
    type Insufficiency = Flawless;
    type Defect = WithdrawnSupply;
}

impl Widen<WithdrawnSupply> for WithdrawnSupply {
    open spec fn widen_spec(narrow: WithdrawnSupply) -> WithdrawnSupply {
        narrow
    }

    fn widen(narrow: WithdrawnSupply) -> WithdrawnSupply {
        narrow
    }
}

/// The outcome of one non-blocking receive attempt on a channel.
pub enum ReceiveOutcome<G> {
    /// A good was received.
    Good(G),
    /// The channel holds no good right now.
    Empty,
    /// The channel is empty and every producer is gone.
    Withdrawn,
}

/// The outcome of one non-blocking send attempt on a channel of finite
/// capacity; a failed attempt hands the good back.
pub enum SendAttempt<G> {
    /// The good was accepted.
    Accepted,
    /// The channel is full right now.
    Full(G),
    /// Every consumer is gone.
    Withdrawn(G),
}

/// A channel whose capacity is unbounded: producing never fails transiently.
pub trait InfiniteChannel<G> {
    /// The producing end.
    type Producer: Producer<Good = G, Flaws = WithdrawnDemand>;

    /// The consuming end.
    type Consumer: Consumer<Good = G, Flaws = ConsumptionFlaws<WithdrawnSupply>>;

    /// Creates the two connected ends of an unbounded channel.
    fn establish(name_str: &str) -> (Self::Producer, Self::Consumer);
}

/// A channel with a finite capacity: producing to a full channel fails
/// transiently.
pub trait FiniteChannel<G> {
    /// The producing end.
    type Producer: Producer<Good = G, Flaws = ProductionFlaws<WithdrawnDemand>>;

    /// The consuming end.
    type Consumer: Consumer<Good = G, Flaws = ConsumptionFlaws<WithdrawnSupply>>;

    /// Creates the two connected ends of a channel with capacity `size`.
    fn establish(name_str: &str, size: usize) -> (Self::Producer, Self::Consumer);
}

} // verus!
