//! Conversion adapters: a producer or consumer over one good type presented as
//! an agent over a different, usually more generic, good type and a broader
//! flaw domain.
use crate::agent::{Agent, Consumer, Producer};
use crate::flaw::{Failure, Fault, Flaws, Recall, Widen};
use vstd::prelude::*;
use vstd::std_specs::cmp::PartialEqSpec;

verus! {

/// The capability of a specific good to be presented as a generic good `G`.
pub trait Generalize<G>: Sized {
    /// The generic good that stands for `self`.
    spec fn generalize_spec(self) -> G;

    /// Converts `self` into its generic form.
    fn generalize(self) -> (r: G)
        ensures
            r == self.generalize_spec(),
    ;
}

/// The capability of a generic good `G` to be narrowed into `Self`, the good a
/// specific producer accepts.
///
/// The narrowing is fallible; where it fails the generic good is handed back
/// untouched.  Where it succeeds it is reversible: generalizing the narrowed
/// good yields the original.
pub trait Specify<G>: Generalize<G> {
    /// The narrowed form of `general`, or `None` where `general` has none.
    spec fn specify_spec(general: G) -> Option<Self>;

    /// Attempts to narrow `general`, returning it unchanged on failure.
    fn specify(general: G) -> (r: Result<Self, G>)
        ensures
            match Self::specify_spec(general) {
                Some(specific) => r == Ok::<Self, G>(specific),
                None => r == Err::<Self, G>(general),
            },
    ;

    /// Narrowing is reversible: a good that can be narrowed generalizes back
    /// to itself.
    proof fn specify_reversible(general: G)
        ensures
            Self::specify_spec(general) matches Some(specific) ==> specific.generalize_spec()
                == general,
    ;
}

impl Generalize<u32> for u8 {
    open spec fn generalize_spec(self) -> u32 {
        self as u32
    }

    fn generalize(self) -> u32 {
        self as u32
    }
}

impl Specify<u32> for u8 {
    open spec fn specify_spec(general: u32) -> Option<u8> {
        if general <= u8::MAX as u32 {
            Some(general as u8)
        } else {
            None
        }
    }

    fn specify(general: u32) -> (r: Result<u8, u32>) {
        if general <= u8::MAX as u32 {
            Ok(general as u8)
        } else {
            Err(general)
        }
    }

    proof fn specify_reversible(general: u32) {
    }
}

/// A defect thrown when an attempt to specify and produce a good fails.
#[non_exhaustive]
pub enum SpecificationDefect<D> {
    /// The good could not be narrowed to the specific producer's good.
    Unspecifiable,
    /// The narrowed good could not be produced; the specific producer's defect
    /// is carried.
    Improducible(D),
}

impl<D: PartialEq> PartialEq for SpecificationDefect<D> {
    fn eq(&self, other: &Self) -> (r: bool) {
        match (self, other) {
            (SpecificationDefect::Unspecifiable, SpecificationDefect::Unspecifiable) => true,
            (SpecificationDefect::Improducible(mine), SpecificationDefect::Improducible(
                theirs,
            )) => mine == theirs,
            _ => false,
        }
    }
}

impl<D: PartialEq> vstd::std_specs::cmp::PartialEqSpecImpl for SpecificationDefect<D> {
    open spec fn obeys_eq_spec() -> bool {
        D::obeys_eq_spec()
    }

    open spec fn eq_spec(&self, other: &Self) -> bool {
        match (self, other) {
            (SpecificationDefect::Unspecifiable, SpecificationDefect::Unspecifiable) => true,
            (SpecificationDefect::Improducible(mine), SpecificationDefect::Improducible(
                theirs,
            )) => PartialEqSpec::eq_spec(mine, theirs),
            _ => false,
        }
    }
}

impl<D, N> Widen<N> for SpecificationDefect<D> where D: Widen<N> {
    open spec fn widen_spec(narrow: N) -> Self {
        SpecificationDefect::Improducible(D::widen_spec(narrow))
    }

    fn widen(narrow: N) -> Self {
        SpecificationDefect::Improducible(D::widen(narrow))
    }
}

/// The flaw domain of a specifier wrapping a producer whose faults widen into
/// the domain `F`.
pub struct SpecificationFlaws<F> {
    /// The type of the wrapped domain.
    flaws: core::marker::PhantomData<F>,
}

impl<F: Flaws> Flaws for SpecificationFlaws<F> {
    type Insufficiency = F::Insufficiency;
    type Defect = SpecificationDefect<F::Defect>;
}

/// A producer that narrows its goods and widens its faults for the producer
/// `P`.
///
/// A generic good `G` is narrowed to `P`'s own good before delegation, and a
/// recall thrown by `P` is widened into `Recall<SpecificationFlaws<F>, G>`.
pub struct Specifier<P, G, F> {
    /// The specific producer.
    producer: P,
    /// The type of the generic good.
    good: core::marker::PhantomData<G>,
    /// The type of the wrapped flaw domain.
    flaws: core::marker::PhantomData<F>,
}

impl<P, G, F> Specifier<P, G, F> {
    /// The wrapped producer.
    pub closed spec fn inner(self) -> P {
        self.producer
    }

    /// Creates a specifier presenting `producer` as a producer of `G`.
    pub fn new(producer: P) -> (r: Self)
        ensures
            r.inner() == producer,
    {
        Specifier { producer, good: core::marker::PhantomData, flaws: core::marker::PhantomData }
    }
}

impl<P, G, F> Agent for Specifier<P, G, F> where P: Producer {
    type Good = G;
}

impl<P, G, F> Producer for Specifier<P, G, F> where
    P: Producer,
    P::Good: Specify<G>,
    F: Flaws,
    F::Insufficiency: Widen<<P::Flaws as Flaws>::Insufficiency>,
    SpecificationDefect<F::Defect>: Widen<<P::Flaws as Flaws>::Defect>,
{
    type Flaws = SpecificationFlaws<F>;

    /// Attempts to narrow `good` and produce the narrowed good on the wrapped
    /// producer.
    ///
    /// Where the narrowing fails, the recall carries the unspecifiable defect
    /// and `good` untouched; where the wrapped producer fails, its fault is
    /// widened and the recalled good is generalized back, which restores
    /// `good` exactly.
    fn produce(&mut self, good: G) -> (r: Result<(), Recall<SpecificationFlaws<F>, G>>)
        ensures
            P::Good::specify_spec(good) is None ==> (r matches Err(recall)
                && recall.fault == Fault::<SpecificationFlaws<F>>::Defect(
                SpecificationDefect::Unspecifiable,
            )),
            r matches Err(recall) ==> (recall.fault is Insufficiency ==> P::Good::specify_spec(
                good,
            ) is Some),
            P::Good::specify_spec(good) is Some ==> (r matches Err(recall) ==> exists|
                inner: Fault<P::Flaws>,
            | recall.fault == inner.blame_spec::<SpecificationFlaws<F>>()),
    {
        match P::Good::specify(good) {
            Err(original) => Err(
                Recall::new(Fault::Defect(SpecificationDefect::Unspecifiable), original),
            ),
            Ok(specific) => match self.producer.produce(specific) {
                Ok(()) => Ok(()),
                Err(recall) => {
                    proof {
                        P::Good::specify_reversible(good);
                    }
                    Err(Recall::new(recall.fault.blame(), recall.good.generalize()))
                },
            },
        }
    }
}

/// A consumer that generalizes the goods and widens the faults of the consumer
/// `C`.
///
/// A good retrieved by `C` is generalized into `G`, and a failure thrown by
/// `C` is widened into the flaw domain `F`.
pub struct Adapter<C, G, F> {
    /// The specific consumer.
    consumer: C,
    /// The type of the generic good.
    good: core::marker::PhantomData<G>,
    /// The type of the presented flaw domain.
    flaws: core::marker::PhantomData<F>,
}

impl<C, G, F> Adapter<C, G, F> {
    /// The wrapped consumer.
    pub closed spec fn inner(self) -> C {
        self.consumer
    }

    /// Creates an adapter presenting `consumer` as a consumer of `G`.
    pub fn new(consumer: C) -> (r: Self)
        ensures
            r.inner() == consumer,
    {
        Adapter { consumer, good: core::marker::PhantomData, flaws: core::marker::PhantomData }
    }
}

impl<C, G, F> Agent for Adapter<C, G, F> where C: Consumer {
    type Good = G;
}

impl<C, G, F> Adapter<C, G, F> where
    C: Consumer,
    C::Good: Generalize<G>,
    F: Flaws,
    F::Insufficiency: Widen<<C::Flaws as Flaws>::Insufficiency>,
    F::Defect: Widen<<C::Flaws as Flaws>::Defect>,
{
    /// The outcome the adapter presents for the wrapped consumer's outcome
    /// `inner`: a good is generalized, a failure is widened.
    pub open spec fn adapt_spec(inner: Result<C::Good, Failure<C::Flaws>>) -> Result<
        G,
        Failure<F>,
    > {
        match inner {
            Ok(specific) => Ok(specific.generalize_spec()),
            Err(failure) => Err(failure.blame_spec::<F>()),
        }
    }
}

impl<C, G, F> Consumer for Adapter<C, G, F> where
    C: Consumer,
    C::Good: Generalize<G>,
    F: Flaws,
    F::Insufficiency: Widen<<C::Flaws as Flaws>::Insufficiency>,
    F::Defect: Widen<<C::Flaws as Flaws>::Defect>,
{
    type Flaws = F;

    /// Delegates to the wrapped consumer and presents its outcome, whatever it
    /// was: the classification of a failure is never changed.
    fn consume(&mut self) -> (r: Result<G, Failure<F>>)
        ensures
            exists|inner: Result<C::Good, Failure<C::Flaws>>| r == Self::adapt_spec(inner),
    {
        match self.consumer.consume() {
            Ok(specific) => {
                let ghost inner = Ok::<C::Good, Failure<C::Flaws>>(specific);
                let r = Ok(specific.generalize());
                proof {
                    assert(r == Self::adapt_spec(inner));
                }
                r
            },
            Err(failure) => {
                let ghost inner = Err::<C::Good, Failure<C::Flaws>>(failure);
                let r = Err(failure.blame());
                proof {
                    assert(r == Self::adapt_spec(inner));
                }
                r
            },
        }
    }
}

} // verus!
