//! The two roles of an exchange: a producer stores one good into a market per
//! call, a consumer retrieves one good per call.  Both act synchronously and
//! without blocking: a call attempts the exchange once and returns, either
//! succeeding or throwing a classified fault.
use crate::flaw::{Failure, Flaws, Recall};
use vstd::prelude::*;

verus! {

/// An agent that acts upon a market holding goods of one type.
pub trait Agent {
    /// The good that is exchanged on the market.
    type Good;
}

/// An agent that stores goods into a market.
pub trait Producer: Agent {
    /// The flaw domain of the faults thrown when a production fails.
    type Flaws: Flaws;

    /// Attempts once, without blocking, to store `good` into the market.
    ///
    /// A failed production throws a recall that returns the rejected good
    /// unchanged: no good is ever silently dropped.
    fn produce(&mut self, good: Self::Good) -> (r: Result<
        (),
        Recall<Self::Flaws, Self::Good>,
    >)
        ensures
            r matches Err(recall) ==> recall.good == good,
    ;
}

/// An agent that retrieves goods from a market.
pub trait Consumer: Agent {
    /// The flaw domain of the faults thrown when a consumption fails.
    type Flaws: Flaws;

    /// Attempts once, without blocking, to retrieve the next good from the
    /// market.
    fn consume(&mut self) -> (r: Result<Self::Good, Failure<Self::Flaws>>);
}

} // verus!
