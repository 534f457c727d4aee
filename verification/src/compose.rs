//! The incremental assembler: a consumer that buffers elements retrieved from
//! an inner consumer and recognizes a higher-level composite good in the
//! buffered prefix.
use crate::agent::{Agent, Consumer};
use crate::flaw::{EmptyStock, Failure, Fault, Flaws, Widen};
use vstd::prelude::*;
use vstd::std_specs::cmp::PartialEqSpec;

verus! {

/// The progress of one composition attempt that found no fault in the buffer.
pub enum Progress<G> {
    /// A full composite was recognized in the buffer's prefix.
    Ready(G),
    /// The buffer does not yet hold enough elements.
    Pending,
}

/// An item that can be composed from a prefix of a sequence of elements.
pub trait Composite<E>: Sized {
    /// The error thrown when the buffered prefix is invalid.
    type Misstep;

    /// Attempts to recognize a `Self` in the prefix of `elements`.
    ///
    /// A `Ready` drains exactly the recognized prefix from the buffer; a
    /// `Pending` leaves the buffer unchanged; a misstep drains exactly the
    /// invalid prefix it diagnoses, at least one element, so that the same
    /// invalid elements are never reconsidered.
    fn compose(elements: &mut Vec<E>) -> (r: Result<Progress<Self>, Self::Misstep>)
        ensures
            match r {
                Ok(Progress::Pending) => final(elements)@ == old(elements)@,
                Ok(Progress::Ready(_)) => exists|n: int|
                    0 <= n <= old(elements)@.len() && final(elements)@ == old(elements)@.skip(n),
                Err(_) => exists|n: int|
                    1 <= n <= old(elements)@.len() && final(elements)@ == old(elements)@.skip(n),
            },
    ;
}

/// The fault thrown by a composer.
#[non_exhaustive]
pub enum ComposeDefect<D, M> {
    /// The inner consumer threw a defect.
    Consume(D),
    /// A composition attempt diagnosed an invalid prefix.
    Compose(M),
}

impl<D: PartialEq, M: PartialEq> PartialEq for ComposeDefect<D, M> {
    fn eq(&self, other: &Self) -> (r: bool) {
        match (self, other) {
            (ComposeDefect::Consume(mine), ComposeDefect::Consume(theirs)) => mine == theirs,
            (ComposeDefect::Compose(mine), ComposeDefect::Compose(theirs)) => mine == theirs,
            _ => false,
        }
    }
}

impl<D: PartialEq, M: PartialEq> vstd::std_specs::cmp::PartialEqSpecImpl for ComposeDefect<D, M> {
    open spec fn obeys_eq_spec() -> bool {
        &&& D::obeys_eq_spec()
        &&& M::obeys_eq_spec()
    }

    open spec fn eq_spec(&self, other: &Self) -> bool {
        match (self, other) {
            (ComposeDefect::Consume(mine), ComposeDefect::Consume(theirs)) => PartialEqSpec::eq_spec(
                mine,
                theirs,
            ),
            (ComposeDefect::Compose(mine), ComposeDefect::Compose(theirs)) => PartialEqSpec::eq_spec(
                mine,
                theirs,
            ),
            _ => false,
        }
    }
}

impl<D, M> Widen<D> for ComposeDefect<D, M> {
    open spec fn widen_spec(narrow: D) -> Self {
        ComposeDefect::Consume(narrow)
    }

    fn widen(narrow: D) -> Self {
        ComposeDefect::Consume(narrow)
    }
}

/// The flaw domain of a composer over an inner consumer with flaw domain `F`
/// and a composite whose misstep type is `M`.
///
/// A transient shortage of the source, whatever its inner type, is reported as
/// an empty stock; defects carry either the inner defect or the misstep.
pub struct CompositionFlaws<F, M> {
    /// The type of the inner flaw domain.
    flaws: core::marker::PhantomData<F>,
    /// The type of the misstep.
    misstep: core::marker::PhantomData<M>,
}

impl<F: Flaws, M> Flaws for CompositionFlaws<F, M> {
    type Insufficiency = EmptyStock;
    type Defect = ComposeDefect<F::Defect, M>;
}

/// A consumer that assembles consumed elements into a composite good.
///
/// The buffer of elements persists across calls: elements pulled by one call
/// that do not yet form a composite stay buffered for the next call.
pub struct Composer<E, G, C> {
    /// The elements that should form the beginning of a composite.
    elements: Vec<E>,
    /// The consumer of the elements.
    consumer: C,
    /// The type of the composite.
    composite: core::marker::PhantomData<G>,
}

impl<E, G, C> Composer<E, G, C> {
    /// The elements buffered between calls.
    pub closed spec fn buffered(self) -> Seq<E> {
        self.elements@
    }

    /// The inner consumer.
    pub closed spec fn inner(self) -> C {
        self.consumer
    }

    /// Creates a composer with an empty buffer over `consumer`.
    pub fn new(consumer: C) -> (r: Self)
        ensures
            r.buffered() == Seq::<E>::empty(),
            r.inner() == consumer,
    {
        Composer { elements: Vec::new(), consumer, composite: core::marker::PhantomData }
    }
}

impl<E, G, C> Agent for Composer<E, G, C> where C: Consumer {
    type Good = G;
}

impl<E, G, C> Composer<E, G, C> where G: Composite<E>, C: Consumer<Good = E> {
    /// The pull phase's terminal failure widened into the composer's flaw
    /// domain: any transient shortage becomes an empty stock, a defect is
    /// carried as a consumption defect.
    pub open spec fn widen_stop_spec(stop: Failure<C::Flaws>) -> Failure<
        CompositionFlaws<C::Flaws, G::Misstep>,
    > {
        Failure {
            fault: match stop.fault {
                Fault::Insufficiency(_) => Fault::Insufficiency(EmptyStock),
                Fault::Defect(defect) => Fault::Defect(ComposeDefect::Consume(defect)),
            },
        }
    }

    /// The outcome of one call, resolved from the composition attempt
    /// `outcome` and the pull phase's terminal failure `stop` (`None` where
    /// the pull phase stopped because the buffer could grow no further).
    ///
    /// A misstep takes priority over whatever the pull phase reported; a ready
    /// composite discards the terminal failure, a permanent one included, since
    /// a source that stays defective reports the defect again on the next
    /// call; otherwise the terminal failure is widened, keeping its
    /// classification.
    pub open spec fn resolve_spec(
        outcome: Result<Progress<G>, G::Misstep>,
        stop: Option<Failure<C::Flaws>>,
    ) -> Result<G, Failure<CompositionFlaws<C::Flaws, G::Misstep>>> {
        match outcome {
            Err(misstep) => Err(
                Failure { fault: Fault::Defect(ComposeDefect::Compose(misstep)) },
            ),
            Ok(Progress::Ready(composite)) => Ok(composite),
            Ok(Progress::Pending) => match stop {
                Some(failure) => Err(Self::widen_stop_spec(failure)),
                None => Err(Failure { fault: Fault::Insufficiency(EmptyStock) }),
            },
        }
    }

    /// How one call relates the buffer before (`pre`) and after (`post`): the
    /// call pulled `pulled`, attempted one composition with outcome `outcome`,
    /// and the composition drained only a prefix of the grown buffer, so that
    /// no element is ever lost.
    pub open spec fn exchange_spec(
        pre: Seq<E>,
        post: Seq<E>,
        pulled: Seq<E>,
        outcome: Result<Progress<G>, G::Misstep>,
        stop: Option<Failure<C::Flaws>>,
        r: Result<G, Failure<CompositionFlaws<C::Flaws, G::Misstep>>>,
    ) -> bool {
        &&& r == Self::resolve_spec(outcome, stop)
        &&& match outcome {
            Ok(Progress::Pending) => post == pre + pulled,
            Ok(Progress::Ready(_)) => exists|n: int|
                0 <= n <= pre.len() + pulled.len() && post == (pre + pulled).skip(n),
            Err(_) => exists|n: int|
                1 <= n <= pre.len() + pulled.len() && post == (pre + pulled).skip(n),
        }
    }

    /// A misstep from composition always takes priority: whatever the pull
    /// phase reported, the call returns the misstep-wrapping defect.
    pub proof fn misstep_priority(misstep: G::Misstep, stop: Option<Failure<C::Flaws>>)
        ensures
            Self::resolve_spec(Err::<Progress<G>, G::Misstep>(misstep), stop) == Err::<
                G,
                Failure<CompositionFlaws<C::Flaws, G::Misstep>>,
            >(Failure { fault: Fault::Defect(ComposeDefect::Compose(misstep)) }),
    {
    }

    /// Where no composite is ready, the terminal failure of the pull phase is
    /// passed on with its classification unchanged: a transient shortage stays
    /// transient and a dead source stays a defect.
    pub proof fn shortage_classification(stop: Failure<C::Flaws>)
        ensures
            Self::resolve_spec(Ok(Progress::Pending), Some(stop)) matches Err(failure)
                && (failure.fault is Insufficiency <==> stop.fault is Insufficiency),
    {
    }

    /// No element is lost while no composite is ready: where a call resolves
    /// to a transient shortage, the buffer after the call extends the buffer
    /// before it, so the elements already gathered await the next call.
    pub proof fn retention(
        pre: Seq<E>,
        post: Seq<E>,
        pulled: Seq<E>,
        outcome: Result<Progress<G>, G::Misstep>,
        stop: Option<Failure<C::Flaws>>,
        r: Result<G, Failure<CompositionFlaws<C::Flaws, G::Misstep>>>,
    )
        requires
            Self::exchange_spec(pre, post, pulled, outcome, stop, r),
            r matches Err(failure) && failure.fault is Insufficiency,
        ensures
            post.len() >= pre.len(),
            post.subrange(0, pre.len() as int) == pre,
    {
        assert(outcome matches Ok(Progress::Pending));
        assert(post == pre + pulled);
        assert(post.subrange(0, pre.len() as int) =~= pre);
    }

    /// Widens the pull phase's terminal failure into the composer's flaw
    /// domain.
    fn widen_stop(stop: Failure<C::Flaws>) -> (r: Failure<CompositionFlaws<C::Flaws, G::Misstep>>)
        ensures
            r == Self::widen_stop_spec(stop),
    {
        Failure::new(
            match stop.fault {
                Fault::Insufficiency(_) => Fault::Insufficiency(EmptyStock::new()),
                Fault::Defect(defect) => Fault::Defect(ComposeDefect::Consume(defect)),
            },
        )
    }
}

impl<E, G, C> Consumer for Composer<E, G, C> where G: Composite<E>, C: Consumer<Good = E> {
    type Flaws = CompositionFlaws<C::Flaws, G::Misstep>;

    /// Pulls elements from the inner consumer until it fails (or, in the
    /// degenerate case, until the buffer can grow no further), then attempts
    /// one composition against the buffer and resolves the outcome.
    fn consume(&mut self) -> (r: Result<G, Failure<CompositionFlaws<C::Flaws, G::Misstep>>>)
        ensures
            exists|
                pulled: Seq<E>,
                outcome: Result<Progress<G>, G::Misstep>,
                stop: Option<Failure<C::Flaws>>,
            | Self::exchange_spec(
                old(self).buffered(),
                final(self).buffered(),
                pulled,
                outcome,
                stop,
                r,
            ),
    {
        let ghost pre = self.elements@;
        let ghost mut pulled: Seq<E> = Seq::empty();

        // Pull every good the source will yield right now, keeping each.
        let mut stop: Option<Failure<C::Flaws>> = None;
        loop
            invariant_except_break
                stop is None,
                self.elements@ == pre + pulled,
            ensures
                self.elements@ == pre + pulled,
            decreases usize::MAX - self.elements.len(),
        {
            if self.elements.len() == usize::MAX {
                break;
            }
            match self.consumer.consume() {
                Ok(element) => {
                    self.elements.push(element);
                    proof {
                        pulled = pulled.push(element);
                    }
                },
                Err(failure) => {
                    stop = Some(failure);
                    break;
                },
            }
        }

        let ghost stop_g = stop;
        let outcome = G::compose(&mut self.elements);
        let ghost outcome_g = outcome;

        let r = match outcome {
            Err(misstep) => Err(
                Failure::new(Fault::Defect(ComposeDefect::Compose(misstep))),
            ),
            Ok(Progress::Ready(composite)) => Ok(composite),
            Ok(Progress::Pending) => match stop {
                Some(failure) => Err(Self::widen_stop(failure)),
                None => Err(Failure::new(Fault::Insufficiency(EmptyStock::new()))),
            },
        };
        proof {
            assert(Self::exchange_spec(pre, self.elements@, pulled, outcome_g, stop_g, r));
            assert(exists|
                pulled2: Seq<E>,
                outcome2: Result<Progress<G>, G::Misstep>,
                stop2: Option<Failure<C::Flaws>>,
            | Self::exchange_spec(pre, self.elements@, pulled2, outcome2, stop2, r));
            assert(pre == old(self).buffered());
            assert(self.elements@ == self.buffered());
        }
        r
    }
}

} // verus!
