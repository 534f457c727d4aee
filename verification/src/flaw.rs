//! The shared fault vocabulary: every fault is classified either as an
//! insufficiency (transient, retry may succeed) or as a defect (permanent for
//! the agent that threw it), and a fault expressed in a narrow flaw domain can
//! be widened into a broader one without changing its classification.
use vstd::prelude::*;
use vstd::std_specs::cmp::PartialEqSpec;

verus! {

/// A flaw domain: the pair of types naming the two fault categories an agent
/// can produce.
pub trait Flaws {
    /// The transient category: the exchange failed because a resource was
    /// momentarily unavailable; retrying may succeed.
    type Insufficiency;

    /// The permanent category: the agent instance cannot recover; retrying
    /// will not help.
    type Defect;
}

/// The capability of a broad fault payload to absorb a narrow one.
///
/// Widening converts the payload carried by one slot of a fault (the
/// insufficiency or the defect) into a broader type; it never moves a payload
/// between the two slots.
pub trait Widen<N>: Sized {
    /// The value of `Self` that stands for the narrow payload `narrow`.
    spec fn widen_spec(narrow: N) -> Self;

    /// Converts `narrow` into its broad form.
    fn widen(narrow: N) -> (r: Self)
        ensures
            r == Self::widen_spec(narrow),
    ;
}

/// A fault thrown during an exchange, tagged with its classification.
pub enum Fault<F: Flaws> {
    /// A transient fault.
    Insufficiency(F::Insufficiency),
    /// A permanent fault.
    Defect(F::Defect),
}

impl<F: Flaws> Fault<F> {
    /// The widening of `self` into the flaw domain `T`, slot by slot.
    pub open spec fn blame_spec<T: Flaws>(self) -> Fault<T> where
        T::Insufficiency: Widen<F::Insufficiency>,
        T::Defect: Widen<F::Defect>,
    {
        match self {
            Fault::Insufficiency(i) => Fault::Insufficiency(T::Insufficiency::widen_spec(i)),
            Fault::Defect(d) => Fault::Defect(T::Defect::widen_spec(d)),
        }
    }

    /// Widens `self` into the flaw domain `T`.
    pub fn blame<T: Flaws>(self) -> (r: Fault<T>) where
        T::Insufficiency: Widen<F::Insufficiency>,
        T::Defect: Widen<F::Defect>,
        ensures
            r == self.blame_spec::<T>(),
    {
        match self {
            Fault::Insufficiency(i) => Fault::Insufficiency(T::Insufficiency::widen(i)),
            Fault::Defect(d) => Fault::Defect(T::Defect::widen(d)),
        }
    }

    /// Whether `self` is classified as permanent.
    pub fn is_defect(&self) -> (r: bool)
        ensures
            r == (self is Defect),
    {
        match self {
            Fault::Insufficiency(_) => false,
            Fault::Defect(_) => true,
        }
    }
}

/// Widening never changes the classification of a fault: an insufficiency
/// stays an insufficiency and a defect stays a defect.
pub proof fn classification_preserved<F: Flaws, T: Flaws>(fault: Fault<F>)
    where
        T::Insufficiency: Widen<F::Insufficiency>,
        T::Defect: Widen<F::Defect>,
    ensures
        fault.blame_spec::<T>() is Insufficiency <==> fault is Insufficiency,
        fault.blame_spec::<T>() is Defect <==> fault is Defect,
{
}

impl<F: Flaws> PartialEq for Fault<F> where
    F::Insufficiency: PartialEq,
    F::Defect: PartialEq,
{
    fn eq(&self, other: &Self) -> (r: bool) {
        match (self, other) {
            (Fault::Insufficiency(mine), Fault::Insufficiency(theirs)) => mine == theirs,
            (Fault::Defect(mine), Fault::Defect(theirs)) => mine == theirs,
            _ => false,
        }
    }
}

impl<F: Flaws> vstd::std_specs::cmp::PartialEqSpecImpl for Fault<F> where
    F::Insufficiency: PartialEq,
    F::Defect: PartialEq,
{
    open spec fn obeys_eq_spec() -> bool {
        &&& F::Insufficiency::obeys_eq_spec()
        &&& F::Defect::obeys_eq_spec()
    }

    open spec fn eq_spec(&self, other: &Self) -> bool {
        match (self, other) {
            (Fault::Insufficiency(mine), Fault::Insufficiency(theirs)) => mine.eq_spec(theirs),
            (Fault::Defect(mine), Fault::Defect(theirs)) => mine.eq_spec(theirs),
            _ => false,
        }
    }
}

/// The error thrown by a consumer whose attempt to retrieve a good failed.
///
/// A failure carries no good: there was none to hand back.
pub struct Failure<F: Flaws> {
    /// The fault that caused the failure.
    pub fault: Fault<F>,
}

impl<F: Flaws> Failure<F> {
    /// Creates a failure caused by `fault`.
    pub fn new(fault: Fault<F>) -> (r: Self)
        ensures
            r.fault == fault,
    {
        Failure { fault }
    }

    /// The widening of `self` into the flaw domain `T`.
    pub open spec fn blame_spec<T: Flaws>(self) -> Failure<T> where
        T::Insufficiency: Widen<F::Insufficiency>,
        T::Defect: Widen<F::Defect>,
    {
        Failure { fault: self.fault.blame_spec::<T>() }
    }

    /// Widens `self` into the flaw domain `T`, keeping its classification.
    pub fn blame<T: Flaws>(self) -> (r: Failure<T>) where
        T::Insufficiency: Widen<F::Insufficiency>,
        T::Defect: Widen<F::Defect>,
        ensures
            r == self.blame_spec::<T>(),
            r.fault is Insufficiency <==> self.fault is Insufficiency,
    {
        Failure { fault: self.fault.blame() }
    }

    /// Whether `self` was caused by a permanent fault.
    pub fn is_defect(&self) -> (r: bool)
        ensures
            r == (self.fault is Defect),
    {
        self.fault.is_defect()
    }
}

impl<F: Flaws> PartialEq for Failure<F> where
    F::Insufficiency: PartialEq,
    F::Defect: PartialEq,
{
    fn eq(&self, other: &Self) -> (r: bool) {
        self.fault == other.fault
    }
}

impl<F: Flaws> vstd::std_specs::cmp::PartialEqSpecImpl for Failure<F> where
    F::Insufficiency: PartialEq,
    F::Defect: PartialEq,
{
    open spec fn obeys_eq_spec() -> bool {
        &&& F::Insufficiency::obeys_eq_spec()
        &&& F::Defect::obeys_eq_spec()
    }

    open spec fn eq_spec(&self, other: &Self) -> bool {
        vstd::std_specs::cmp::PartialEqSpec::eq_spec(&self.fault, &other.fault)
    }
}

/// The error thrown by a producer whose attempt to store a good failed.
///
/// A recall returns the rejected good to the caller: no good is destroyed by a
/// failed production.
pub struct Recall<F: Flaws, G> {
    /// The fault that caused the recall.
    pub fault: Fault<F>,
    /// The good whose production failed.
    pub good: G,
}

impl<F: Flaws, G> Recall<F, G> {
    /// Creates a recall of `good` caused by `fault`.
    pub fn new(fault: Fault<F>, good: G) -> (r: Self)
        ensures
            r.fault == fault,
            r.good == good,
    {
        Recall { fault, good }
    }

    /// The widening of `self` into the flaw domain `T`, keeping the good.
    pub open spec fn blame_spec<T: Flaws>(self) -> Recall<T, G> where
        T::Insufficiency: Widen<F::Insufficiency>,
        T::Defect: Widen<F::Defect>,
    {
        Recall { fault: self.fault.blame_spec::<T>(), good: self.good }
    }

    /// Widens `self` into the flaw domain `T`, keeping its classification and
    /// the recalled good.
    pub fn blame<T: Flaws>(self) -> (r: Recall<T, G>) where
        T::Insufficiency: Widen<F::Insufficiency>,
        T::Defect: Widen<F::Defect>,
        ensures
            r == self.blame_spec::<T>(),
            r.good == self.good,
            r.fault is Insufficiency <==> self.fault is Insufficiency,
    {
        Recall { fault: self.fault.blame(), good: self.good }
    }

    /// Whether `self` was caused by a permanent fault.
    pub fn is_defect(&self) -> (r: bool)
        ensures
            r == (self.fault is Defect),
    {
        self.fault.is_defect()
    }
}

impl<F: Flaws, G> PartialEq for Recall<F, G> where
    F::Insufficiency: PartialEq,
    F::Defect: PartialEq,
    G: PartialEq,
{
    fn eq(&self, other: &Self) -> (r: bool) {
        self.fault == other.fault && self.good == other.good
    }
}

impl<F: Flaws, G> vstd::std_specs::cmp::PartialEqSpecImpl for Recall<F, G> where
    F::Insufficiency: PartialEq,
    F::Defect: PartialEq,
    G: PartialEq,
{
    open spec fn obeys_eq_spec() -> bool {
        &&& F::Insufficiency::obeys_eq_spec()
        &&& F::Defect::obeys_eq_spec()
        &&& G::obeys_eq_spec()
    }

    open spec fn eq_spec(&self, other: &Self) -> bool {
        &&& vstd::std_specs::cmp::PartialEqSpec::eq_spec(&self.fault, &other.fault)
        &&& self.good.eq_spec(&other.good)
    }
}

/// A fault that an agent declares it never throws.
///
/// The type is uninhabited in spirit: no function of this library constructs a
/// value of it, and an agent whose flaw domain names it in a slot promises in
/// its own contract that the slot is never filled.
#[derive(Clone, Copy, Debug, PartialEq, Eq, Structural)]
pub struct Flawless;

impl Flaws for Flawless {
    type Insufficiency = Flawless;
    type Defect = Flawless;
}

impl Widen<Flawless> for Flawless {
    open spec fn widen_spec(narrow: Flawless) -> Flawless {
        narrow
    }

    fn widen(narrow: Flawless) -> Flawless {
        narrow
    }
}

/// The insufficiency thrown by a producer that found no room for its good.
#[derive(Clone, Copy, Debug, PartialEq, Eq, Structural)]
pub struct FullStock;

impl FullStock {
    /// Creates the full-stock insufficiency.
    pub fn new() -> (r: Self)
        ensures
            r == (FullStock {}),
    {
        FullStock
    }
}

impl Flaws for FullStock {
    type Insufficiency = FullStock;
    type Defect = Flawless;
}

impl Widen<FullStock> for FullStock {
    open spec fn widen_spec(narrow: FullStock) -> FullStock {
        narrow
    }

    fn widen(narrow: FullStock) -> FullStock {
        narrow
    }
}

/// The insufficiency thrown by a consumer that found no good in stock.
#[derive(Clone, Copy, Debug, PartialEq, Eq, Structural)]
pub struct EmptyStock;

impl EmptyStock {
    /// Creates the empty-stock insufficiency.
    pub fn new() -> (r: Self)
        ensures
            r == (EmptyStock {}),
    {
        EmptyStock
    }
}

impl Flaws for EmptyStock {
    type Insufficiency = EmptyStock;
    type Defect = Flawless;
}

impl Widen<EmptyStock> for EmptyStock {
    open spec fn widen_spec(narrow: EmptyStock) -> EmptyStock {
        narrow
    }

    fn widen(narrow: EmptyStock) -> EmptyStock {
        narrow
    }
}

/// The flaw domain of a producer storing into a finite market whose defect
/// type is `D`.
#[derive(Debug)]
pub struct ProductionFlaws<D> {
    /// The type of the defect.
    defect: core::marker::PhantomData<D>,
}

impl<D> Flaws for ProductionFlaws<D> {
    type Insufficiency = FullStock;
    type Defect = D;
}

/// The flaw domain of a consumer retrieving from a market whose defect type is
/// `D`.
#[derive(Debug)]
pub struct ConsumptionFlaws<D> {
    /// The type of the defect.
    defect: core::marker::PhantomData<D>,
}

impl<D> Flaws for ConsumptionFlaws<D> {
    type Insufficiency = EmptyStock;
    type Defect = D;
}

} // verus!
