//! Fan-out and fan-in over collections of agents: a distributor routes each
//! good to the producer registered for its key, and a collector scans a fixed
//! order of consumers for the first one that can supply a good.
use crate::agent::{Agent, Consumer, Producer};
use crate::flaw::{EmptyStock, Failure, Fault, Flaws, Recall, Widen};
use vstd::prelude::*;
use vstd::std_specs::cmp::PartialEqSpec;

verus! {

/// The flaw domain of a distributor over producers with flaw domain `F`.
pub struct DistributionFlaws<F> {
    /// The type of the wrapped domain.
    flaws: core::marker::PhantomData<F>,
}

impl<F: Flaws> Flaws for DistributionFlaws<F> {
    type Insufficiency = F::Insufficiency;
    type Defect = DistributionDefect<F::Defect>;
}

/// The defect thrown by a distributor.
#[non_exhaustive]
pub enum DistributionDefect<D> {
    /// The registered producer failed; its defect is carried.
    Specification(D),
    /// The good's key has no registered producer.
    MissingKey,
}

impl<D: PartialEq> PartialEq for DistributionDefect<D> {
    fn eq(&self, other: &Self) -> (r: bool) {
        match (self, other) {
            (DistributionDefect::Specification(mine), DistributionDefect::Specification(
                theirs,
            )) => mine == theirs,
            (DistributionDefect::MissingKey, DistributionDefect::MissingKey) => true,
            _ => false,
        }
    }
}

impl<D: PartialEq> vstd::std_specs::cmp::PartialEqSpecImpl for DistributionDefect<D> {
    open spec fn obeys_eq_spec() -> bool {
        D::obeys_eq_spec()
    }

    open spec fn eq_spec(&self, other: &Self) -> bool {
        match (self, other) {
            (DistributionDefect::Specification(mine), DistributionDefect::Specification(
                theirs,
            )) => PartialEqSpec::eq_spec(mine, theirs),
            (DistributionDefect::MissingKey, DistributionDefect::MissingKey) => true,
            _ => false,
        }
    }
}

impl<D> Widen<D> for DistributionDefect<D> {
    open spec fn widen_spec(narrow: D) -> Self {
        DistributionDefect::Specification(narrow)
    }

    fn widen(narrow: D) -> Self {
        DistributionDefect::Specification(narrow)
    }
}

/// An item that exposes a routing key.
pub trait Keyed<K> {
    /// The key of `self`.
    spec fn key_spec(self) -> K;

    /// Returns a reference to the key of `self`.
    fn key(&self) -> (r: &K)
        ensures
            *r == self.key_spec(),
    ;
}

/// A key whose executable equality decides logical equality.
pub trait Key: Sized {
    /// Whether `self` and `other` are the same key.
    fn key_eq(&self, other: &Self) -> (r: bool)
        ensures
            r <==> self == other,
    ;
}

impl Key for u8 {
    fn key_eq(&self, other: &Self) -> bool {
        *self == *other
    }
}

impl Key for u32 {
    fn key_eq(&self, other: &Self) -> bool {
        *self == *other
    }
}

impl Key for u64 {
    fn key_eq(&self, other: &Self) -> bool {
        *self == *other
    }
}

impl Key for usize {
    fn key_eq(&self, other: &Self) -> bool {
        *self == *other
    }
}

/// A producer that routes each good to one of many registered producers, by
/// the good's key.
pub struct Distributor<K, P> {
    /// The registered producers, keyed; no two entries share a key.
    entries: Vec<(K, P)>,
    /// The name of the distributor.
    name: String,
}

impl<K, P> Distributor<K, P> {
    /// The registered routes, in insertion order.
    pub closed spec fn routes(self) -> Seq<(K, P)> {
        self.entries@
    }

    /// The name given at construction.
    pub closed spec fn name_spec(self) -> Seq<char> {
        self.name@
    }

    /// No two routes share a key.
    pub open spec fn well_routed(self) -> bool {
        forall|i: int, j: int|
            0 <= i < j < self.routes().len() ==> self.routes()[i].0 != self.routes()[j].0
    }

    /// The index of the route registered for `key`, if any.
    pub open spec fn find_key(s: Seq<(K, P)>, key: K) -> Option<int>
        decreases s.len(),
    {
        if s.len() == 0 {
            None
        } else if s[0].0 == key {
            Some(0int)
        } else {
            match Self::find_key(s.skip(1), key) {
                Some(i) => Some(i + 1),
                None => None,
            }
        }
    }

    /// The producer registered for `key`, if any.
    pub open spec fn route(self, key: K) -> Option<P> {
        match Self::find_key(self.routes(), key) {
            Some(i) => Some(self.routes()[i].1),
            None => None,
        }
    }

    /// `find_key` returns the index of the first route with the sought key,
    /// and `None` exactly where no route has it.
    pub proof fn find_key_located(s: Seq<(K, P)>, key: K)
        ensures
            match Self::find_key(s, key) {
                Some(i) => 0 <= i < s.len() && s[i].0 == key && (forall|m: int|
                    0 <= m < i ==> s[m].0 != key),
                None => forall|m: int| 0 <= m < s.len() ==> s[m].0 != key,
            },
        decreases s.len(),
    {
        if s.len() > 0 && s[0].0 != key {
            Self::find_key_located(s.skip(1), key);
            match Self::find_key(s.skip(1), key) {
                Some(i) => {
                    assert(s.skip(1)[i] == s[i + 1]);
                    assert(forall|m: int| 1 <= m < i + 1 ==> s[m] == s.skip(1)[m - 1]);
                },
                None => {
                    assert(forall|m: int| 1 <= m < s.len() ==> s[m] == s.skip(1)[m - 1]);
                },
            }
        }
    }

    /// A first occurrence of `key` at `i` pins `find_key` down.
    pub proof fn find_key_pinned(s: Seq<(K, P)>, key: K, i: int)
        requires
            0 <= i < s.len(),
            s[i].0 == key,
            forall|m: int| 0 <= m < i ==> s[m].0 != key,
        ensures
            Self::find_key(s, key) == Some(i),
        decreases i,
    {
        if i > 0 {
            assert(forall|m: int| 0 <= m < s.skip(1).len() ==> s.skip(1)[m] == s[m + 1]);
            assert(s.skip(1)[i - 1].0 == key);
            Self::find_key_pinned(s.skip(1), key, i - 1);
        }
    }

    /// Creates a distributor with no registered producers.
    pub fn new(name_str: &str) -> (r: Self)
        ensures
            r.routes() == Seq::<(K, P)>::empty(),
            r.name_spec() == name_str@,
            r.well_routed(),
    {
        Distributor { entries: Vec::new(), name: name_str.to_owned() }
    }

    /// The name given at construction.
    pub fn name(&self) -> (r: &String)
        ensures
            r@ == self.name_spec(),
    {
        &self.name
    }
}

impl<K: Key, P> Distributor<K, P> {
    /// Registers `producer` for `key`, replacing and returning the producer
    /// previously registered for that key, if any.
    pub fn insert(&mut self, key: K, producer: P) -> (r: Option<P>)
        requires
            old(self).well_routed(),
        ensures
            final(self).well_routed(),
            final(self).name_spec() == old(self).name_spec(),
            match Self::find_key(old(self).routes(), key) {
                Some(i) => r == Some(old(self).routes()[i].1) && final(self).routes() == old(
                    self,
                ).routes().update(i, (key, producer)),
                None => r is None && final(self).routes() == old(self).routes().push(
                    (key, producer),
                ),
            },
    {
        proof {
            Self::find_key_located(self.entries@, key);
        }
        let mut i: usize = 0;
        let n = self.entries.len();
        while i < n
            invariant
                0 <= i <= n,
                n == self.entries.len(),
                forall|m: int| 0 <= m < i ==> self.entries@[m].0 != key,
                *self == *old(self),
                old(self).well_routed(),
            decreases n - i,
        {
            if self.entries[i].0.key_eq(&key) {
                proof {
                    Self::find_key_pinned(self.entries@, key, i as int);
                }
                let mut entry = (key, producer);
                core::mem::swap(&mut entry, &mut self.entries[i]);
                proof {
                    assert(forall|m: int|
                        0 <= m < self.entries@.len() ==> self.entries@[m].0 == old(
                            self,
                        ).entries@[m].0);
                    assert forall|a: int, b: int|
                        0 <= a < b < self.routes().len() implies self.routes()[a].0
                        != self.routes()[b].0 by {
                        assert(old(self).routes()[a].0 != old(self).routes()[b].0);
                    }
                }
                return Some(entry.1);
            }
            i += 1;
        }
        proof {
            Self::find_key_located(self.entries@, key);
        }
        self.entries.push((key, producer));
        None
    }
}

impl<K, P: Producer> Agent for Distributor<K, P> {
    type Good = P::Good;
}

impl<K, P> Producer for Distributor<K, P> where
    K: Key,
    P: Producer,
    P::Good: Keyed<K>,
    <P::Flaws as Flaws>::Insufficiency: Widen<<P::Flaws as Flaws>::Insufficiency>,
{
    type Flaws = DistributionFlaws<P::Flaws>;

    /// Routes `good` to the producer registered for its key.
    ///
    /// Where no producer is registered, the recall carries the missing-key
    /// defect and `good` untouched; where the registered producer fails, its
    /// fault is widened and the recall still returns `good` untouched.  Only
    /// the matched route's producer is touched; the keys and the order of the
    /// routes never change.
    fn produce(&mut self, good: P::Good) -> (r: Result<
        (),
        Recall<DistributionFlaws<P::Flaws>, P::Good>,
    >)
        ensures
            old(self).route(good.key_spec()) is None ==> (*final(self) == *old(self) && r == Err::<
                (),
                Recall<DistributionFlaws<P::Flaws>, P::Good>,
            >(Recall { fault: Fault::Defect(DistributionDefect::MissingKey), good })),
            match Self::find_key(old(self).routes(), good.key_spec()) {
                Some(i) => {
                    &&& final(self).routes().len() == old(self).routes().len()
                    &&& final(self).routes()[i].0 == old(self).routes()[i].0
                    &&& (forall|m: int|
                        0 <= m < old(self).routes().len() && m != i ==> final(self).routes()[m]
                            == old(self).routes()[m])
                    &&& (r matches Err(recall) ==> exists|inner: Fault<P::Flaws>|
                        recall.fault == inner.blame_spec::<DistributionFlaws<P::Flaws>>())
                },
                None => true,
            },
            final(self).name_spec() == old(self).name_spec(),
            old(self).well_routed() ==> final(self).well_routed(),
    {
        let key = good.key();
        proof {
            Self::find_key_located(self.entries@, good.key_spec());
        }
        let mut i: usize = 0;
        let n = self.entries.len();
        while i < n
            invariant
                0 <= i <= n,
                n == self.entries.len(),
                forall|m: int| 0 <= m < i ==> self.entries@[m].0 != good.key_spec(),
                *self == *old(self),
                *key == good.key_spec(),
            decreases n - i,
        {
            if self.entries[i].0.key_eq(key) {
                proof {
                    Self::find_key_pinned(self.entries@, good.key_spec(), i as int);
                }
                let entry = &mut self.entries[i];
                let outcome = entry.1.produce(good);
                return match outcome {
                    Ok(()) => Ok(()),
                    Err(recall) => {
                        let ghost inner = recall.fault;
                        let widened = Err(recall.blame());
                        proof {
                            assert(widened matches Err(recall2) && recall2.fault
                                == inner.blame_spec::<DistributionFlaws<P::Flaws>>());
                        }
                        widened
                    },
                };
            }
            i += 1;
        }
        Err(Recall::new(Fault::Defect(DistributionDefect::MissingKey), good))
    }
}

/// A consumer that scans an ordered sequence of consumers and returns the
/// first good one of them yields.
pub struct Collector<C> {
    /// The consumers, in scan order.
    consumers: Vec<C>,
    /// The name of the collector.
    name: String,
}

impl<C> Collector<C> {
    /// The consumers, in scan order.
    pub closed spec fn lineup(self) -> Seq<C> {
        self.consumers@
    }

    /// The name given at construction.
    pub closed spec fn name_spec(self) -> Seq<char> {
        self.name@
    }

    /// Creates a collector with no consumers.
    pub fn new(name: String) -> (r: Self)
        ensures
            r.lineup() == Seq::<C>::empty(),
            r.name_spec() == name@,
    {
        Collector { consumers: Vec::new(), name }
    }

    /// The name given at construction.
    pub fn name(&self) -> (r: &String)
        ensures
            r@ == self.name_spec(),
    {
        &self.name
    }

    /// Appends `consumer` to the end of the scan order; it is reached on the
    /// next call once every earlier consumer has reported a shortage.
    pub fn push(&mut self, consumer: C)
        ensures
            final(self).lineup() == old(self).lineup().push(consumer),
            final(self).name_spec() == old(self).name_spec(),
    {
        self.consumers.push(consumer);
    }
}

impl<C: Consumer> Agent for Collector<C> {
    type Good = C::Good;
}

impl<C: Consumer> Collector<C> {
    /// Whether `outcome` is a transient shortage, the one kind of outcome the
    /// scan moves past.
    pub open spec fn is_shortage(outcome: Result<C::Good, Failure<C::Flaws>>) -> bool {
        outcome matches Err(failure) && failure.fault is Insufficiency
    }

    /// One consumer's outcome widened into the collector's flaw domain: any
    /// transient shortage becomes an empty stock, a defect is carried
    /// unchanged.
    pub open spec fn widen_outcome_spec(outcome: Result<C::Good, Failure<C::Flaws>>) -> Result<
        C::Good,
        Failure<crate::flaw::ConsumptionFlaws<<C::Flaws as Flaws>::Defect>>,
    > {
        match outcome {
            Ok(good) => Ok(good),
            Err(failure) => Err(
                Failure {
                    fault: match failure.fault {
                        Fault::Insufficiency(_) => Fault::Insufficiency(EmptyStock),
                        Fault::Defect(defect) => Fault::Defect(defect),
                    },
                },
            ),
        }
    }

    /// What a scan over consumers whose outcomes were `outcomes` returns: the
    /// first success or first defect decides; a scan that saw only shortages,
    /// or had nothing to scan, reports an empty stock.
    pub open spec fn collect_spec(outcomes: Seq<Result<C::Good, Failure<C::Flaws>>>) -> Result<
        C::Good,
        Failure<crate::flaw::ConsumptionFlaws<<C::Flaws as Flaws>::Defect>>,
    >
        decreases outcomes.len(),
    {
        if outcomes.len() == 0 {
            Err(Failure { fault: Fault::Insufficiency(EmptyStock) })
        } else if !Self::is_shortage(outcomes[0]) {
            Self::widen_outcome_spec(outcomes[0])
        } else if outcomes.len() == 1 {
            Self::widen_outcome_spec(outcomes[0])
        } else {
            Self::collect_spec(outcomes.skip(1))
        }
    }

    /// The first outcome that is not a shortage decides the scan: a success
    /// is returned as it stands and a defect is returned immediately, never
    /// masked by later consumers.
    pub proof fn scan_decided_by_first(
        outcomes: Seq<Result<C::Good, Failure<C::Flaws>>>,
        i: int,
    )
        requires
            0 <= i < outcomes.len(),
            forall|m: int| 0 <= m < i ==> Self::is_shortage(outcomes[m]),
            !Self::is_shortage(outcomes[i]),
        ensures
            Self::collect_spec(outcomes) == Self::widen_outcome_spec(outcomes[i]),
        decreases i,
    {
        if i > 0 {
            assert(forall|m: int| 0 <= m < i - 1 ==> Self::is_shortage(outcomes.skip(1)[m]));
            assert(!Self::is_shortage(outcomes.skip(1)[i - 1]));
            Self::scan_decided_by_first(outcomes.skip(1), i - 1);
        }
    }

    /// A scan that saw only shortages reports an empty stock.
    pub proof fn scan_exhausted(outcomes: Seq<Result<C::Good, Failure<C::Flaws>>>)
        requires
            forall|m: int| 0 <= m < outcomes.len() ==> Self::is_shortage(outcomes[m]),
        ensures
            Self::collect_spec(outcomes) == Err::<
                C::Good,
                Failure<crate::flaw::ConsumptionFlaws<<C::Flaws as Flaws>::Defect>>,
            >(Failure { fault: Fault::Insufficiency(EmptyStock) }),
        decreases outcomes.len(),
    {
        if outcomes.len() > 1 {
            Self::scan_exhausted(outcomes.skip(1));
        }
    }

    /// Widens one consumer's outcome into the collector's flaw domain.
    fn widen_outcome(outcome: Result<C::Good, Failure<C::Flaws>>) -> (r: Result<
        C::Good,
        Failure<crate::flaw::ConsumptionFlaws<<C::Flaws as Flaws>::Defect>>,
    >)
        ensures
            r == Self::widen_outcome_spec(outcome),
    {
        match outcome {
            Ok(good) => Ok(good),
            Err(failure) => Err(
                Failure::new(
                    match failure.fault {
                        Fault::Insufficiency(_) => Fault::Insufficiency(EmptyStock::new()),
                        Fault::Defect(defect) => Fault::Defect(defect),
                    },
                ),
            ),
        }
    }
}

impl<C: Consumer> Consumer for Collector<C> {
    type Flaws = crate::flaw::ConsumptionFlaws<<C::Flaws as Flaws>::Defect>;

    /// Scans the consumers in order: the first success or the first defect is
    /// returned at once; a consumer that reports a transient shortage is
    /// passed over; a scan that finds only shortages reports an empty stock.
    fn consume(&mut self) -> (r: Result<
        C::Good,
        Failure<crate::flaw::ConsumptionFlaws<<C::Flaws as Flaws>::Defect>>,
    >)
        ensures
            final(self).lineup().len() == old(self).lineup().len(),
            final(self).name_spec() == old(self).name_spec(),
            exists|outcomes: Seq<Result<C::Good, Failure<C::Flaws>>>|
                {
                    &&& outcomes.len() <= old(self).lineup().len()
                    &&& r == Self::collect_spec(outcomes)
                    &&& (outcomes.len() < old(self).lineup().len() ==> (outcomes.len() > 0
                        && !Self::is_shortage(outcomes.last())))
                    &&& (forall|m: int|
                        outcomes.len() <= m < old(self).lineup().len() ==> final(self).lineup()[m]
                            == old(self).lineup()[m])
                },
    {
        let ghost mut outcomes: Seq<Result<C::Good, Failure<C::Flaws>>> = Seq::empty();
        let mut i: usize = 0;
        let n = self.consumers.len();
        while i < n
            invariant
                0 <= i <= n,
                n == self.consumers.len(),
                self.consumers@.len() == old(self).consumers@.len(),
                self.name@ == old(self).name@,
                outcomes.len() == i,
                forall|m: int| 0 <= m < i ==> Self::is_shortage(outcomes[m]),
                forall|m: int| i <= m < n ==> self.consumers@[m] == old(self).consumers@[m],
            decreases n - i,
        {
            let consumer = &mut self.consumers[i];
            let outcome = consumer.consume();
            proof {
                outcomes = outcomes.push(outcome);
            }
            let shortage = match &outcome {
                Ok(_) => false,
                Err(failure) => !failure.is_defect(),
            };
            if !shortage {
                proof {
                    Self::scan_decided_by_first(outcomes, i as int);
                }
                let r = Self::widen_outcome(outcome);
                proof {
                    assert(outcomes.len() <= old(self).lineup().len() && r == Self::collect_spec(
                        outcomes,
                    ) && (outcomes.len() < old(self).lineup().len() ==> (outcomes.len() > 0
                        && !Self::is_shortage(outcomes.last()))) && (forall|m: int|
                        outcomes.len() <= m < old(self).lineup().len() ==> self.consumers@[m]
                            == old(self).consumers@[m]));
                }
                return r;
            }
            i += 1;
        }
        proof {
            Self::scan_exhausted(outcomes);
        }
        let r = Err(Failure::new(Fault::Insufficiency(EmptyStock::new())));
        proof {
            assert(outcomes.len() <= old(self).lineup().len() && r == Self::collect_spec(outcomes)
                && (outcomes.len() < old(self).lineup().len() ==> (outcomes.len() > 0
                && !Self::is_shortage(outcomes.last()))) && (forall|m: int|
                outcomes.len() <= m < old(self).lineup().len() ==> self.consumers@[m]
                    == old(self).consumers@[m]));
        }
        r
    }
}

} // verus!
