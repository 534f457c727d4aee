//! Channels of the crossbeam library presented as producers and consumers.
use crate::agent::{Agent, Consumer, Producer};
use crate::channel::{
    FiniteChannel, InfiniteChannel, ReceiveOutcome, SendAttempt, WithdrawnDemand, WithdrawnSupply,
};
use crate::flaw::{
    ConsumptionFlaws, EmptyStock, Failure, Fault, FullStock, ProductionFlaws, Recall,
};
use vstd::prelude::*;

verus! {

/// The sending end of a crossbeam channel.
#[verifier::external_type_specification]
#[verifier::external_body]
#[verifier::reject_recursive_types(G)]
pub struct ExCrossbeamSender<G>(crossbeam_channel::Sender<G>);

/// The receiving end of a crossbeam channel.
#[verifier::external_type_specification]
#[verifier::external_body]
#[verifier::reject_recursive_types(G)]
pub struct ExCrossbeamReceiver<G>(crossbeam_channel::Receiver<G>);

/// Relies on crossbeam_channel::unbounded: returns the two connected ends of
/// an unbounded channel.
#[verifier::external_body]
fn crossbeam_establish<G>() -> (crossbeam_channel::Sender<G>, crossbeam_channel::Receiver<G>) {
    crossbeam_channel::unbounded()
}

/// Relies on crossbeam_channel::bounded: returns the two connected ends of a
/// channel with capacity `size`.
#[verifier::external_body]
fn crossbeam_establish_bounded<G>(size: usize) -> (
    crossbeam_channel::Sender<G>,
    crossbeam_channel::Receiver<G>,
) {
    crossbeam_channel::bounded(size)
}

/// Relies on crossbeam_channel::Sender::send: on an unbounded channel (the
/// only kind this module pairs it with) it never blocks, and on failure
/// (every receiver gone) the error carries the good back.
#[verifier::external_body]
fn crossbeam_send<G>(sender: &crossbeam_channel::Sender<G>, good: G) -> (r: Result<(), G>)
    ensures
        r matches Err(returned) ==> returned == good,
{
    sender.send(good).map_err(|error| error.0)
}

/// Relies on crossbeam_channel::Sender::try_send: it never blocks, and on
/// failure (full channel or every receiver gone) the error carries the good
/// back.
#[verifier::external_body]
fn crossbeam_try_send<G>(sender: &crossbeam_channel::Sender<G>, good: G) -> (r: SendAttempt<G>)
    ensures
        r matches SendAttempt::Full(returned) ==> returned == good,
        r matches SendAttempt::Withdrawn(returned) ==> returned == good,
{
    match sender.try_send(good) {
        Ok(()) => SendAttempt::Accepted,
        Err(crossbeam_channel::TrySendError::Full(returned)) => SendAttempt::Full(returned),
        Err(crossbeam_channel::TrySendError::Disconnected(returned)) => SendAttempt::Withdrawn(
            returned,
        ),
    }
}

/// Relies on crossbeam_channel::Receiver::try_recv: it never blocks,
/// returning a good, or empty, or disconnected when the channel is empty and
/// every sender is gone.
#[verifier::external_body]
fn crossbeam_try_recv<G>(receiver: &crossbeam_channel::Receiver<G>) -> (r: ReceiveOutcome<G>) {
    match receiver.try_recv() {
        Ok(good) => ReceiveOutcome::Good(good),
        Err(crossbeam_channel::TryRecvError::Empty) => ReceiveOutcome::Empty,
        Err(crossbeam_channel::TryRecvError::Disconnected) => ReceiveOutcome::Withdrawn,
    }
}

/// A consumer of the goods arriving on a crossbeam channel.
#[verifier::reject_recursive_types(G)]
pub struct CrossbeamReceiver<G> {
    /// The name of the channel.
    name: String,
    /// The receiving end of the channel.
    receiver: crossbeam_channel::Receiver<G>,
}

impl<G> CrossbeamReceiver<G> {
    /// The name given at establishment.
    pub closed spec fn name_spec(self) -> Seq<char> {
        self.name@
    }

    /// The name given at establishment.
    pub fn name(&self) -> (r: &String)
        ensures
            r@ == self.name_spec(),
    {
        &self.name
    }

    /// The outcome the consumer presents for the channel's outcome `inner`:
    /// an empty channel is a transient shortage, a channel whose producers
    /// are all gone is a permanent defect.
    pub open spec fn receive_outcome_spec(inner: ReceiveOutcome<G>) -> Result<
        G,
        Failure<ConsumptionFlaws<WithdrawnSupply>>,
    > {
        match inner {
            ReceiveOutcome::Good(good) => Ok(good),
            ReceiveOutcome::Empty => Err(Failure { fault: Fault::Insufficiency(EmptyStock) }),
            ReceiveOutcome::Withdrawn => Err(
                Failure { fault: Fault::Defect(WithdrawnSupply) },
            ),
        }
    }
}

impl<G> Agent for CrossbeamReceiver<G> {
    type Good = G;
}

impl<G> Consumer for CrossbeamReceiver<G> {
    type Flaws = ConsumptionFlaws<WithdrawnSupply>;

    /// Attempts once to receive the next good from the channel.
    fn consume(&mut self) -> (r: Result<G, Failure<ConsumptionFlaws<WithdrawnSupply>>>)
        ensures
            exists|inner: ReceiveOutcome<G>| r == Self::receive_outcome_spec(inner),
    {
        let outcome = crossbeam_try_recv(&self.receiver);
        let ghost inner = outcome;
        let r = match outcome {
            ReceiveOutcome::Good(good) => Ok(good),
            ReceiveOutcome::Empty => Err(Failure::new(Fault::Insufficiency(EmptyStock::new()))),
            ReceiveOutcome::Withdrawn => Err(
                Failure::new(Fault::Defect(WithdrawnSupply::new())),
            ),
        };
        proof {
            assert(r == Self::receive_outcome_spec(inner));
        }
        r
    }
}

/// A producer of goods onto a bounded crossbeam channel.
#[verifier::reject_recursive_types(G)]
pub struct CrossbeamFiniteSender<G> {
    /// The name of the channel.
    name: String,
    /// The sending end of the channel.
    sender: crossbeam_channel::Sender<G>,
}

impl<G> CrossbeamFiniteSender<G> {
    /// The name given at establishment.
    pub closed spec fn name_spec(self) -> Seq<char> {
        self.name@
    }

    /// The name given at establishment.
    pub fn name(&self) -> (r: &String)
        ensures
            r@ == self.name_spec(),
    {
        &self.name
    }

    /// The outcome the producer presents for the channel's outcome `inner`
    /// when producing `good`: a full channel is a transient shortage, a
    /// channel whose consumers are all gone is a permanent defect, and either
    /// way the good is recalled.
    pub open spec fn send_attempt_spec(inner: SendAttempt<G>, good: G) -> Result<
        (),
        Recall<ProductionFlaws<WithdrawnDemand>, G>,
    > {
        match inner {
            SendAttempt::Accepted => Ok(()),
            SendAttempt::Full(returned) => Err(
                Recall { fault: Fault::Insufficiency(FullStock), good: returned },
            ),
            SendAttempt::Withdrawn(returned) => Err(
                Recall { fault: Fault::Defect(WithdrawnDemand), good: returned },
            ),
        }
    }
}

impl<G> Agent for CrossbeamFiniteSender<G> {
    type Good = G;
}

impl<G> Producer for CrossbeamFiniteSender<G> {
    type Flaws = ProductionFlaws<WithdrawnDemand>;

    /// Attempts once to send `good`, classifying a full channel as transient
    /// and withdrawn consumers as permanent; a failed send recalls `good`
    /// untouched.
    fn produce(&mut self, good: G) -> (r: Result<(), Recall<ProductionFlaws<WithdrawnDemand>, G>>)
        ensures
            exists|inner: SendAttempt<G>| r == Self::send_attempt_spec(inner, good),
    {
        let outcome = crossbeam_try_send(&self.sender, good);
        let ghost inner = outcome;
        let r = match outcome {
            SendAttempt::Accepted => Ok(()),
            SendAttempt::Full(returned) => Err(
                Recall::new(Fault::Insufficiency(FullStock::new()), returned),
            ),
            SendAttempt::Withdrawn(returned) => Err(
                Recall::new(Fault::Defect(WithdrawnDemand::new()), returned),
            ),
        };
        proof {
            assert(r == Self::send_attempt_spec(inner, good));
        }
        r
    }
}

/// A producer of goods onto an unbounded crossbeam channel.
#[verifier::reject_recursive_types(G)]
pub struct CrossbeamInfiniteSender<G> {
    /// The name of the channel.
    name: String,
    /// The sending end of the channel.
    sender: crossbeam_channel::Sender<G>,
}

impl<G> CrossbeamInfiniteSender<G> {
    /// The name given at establishment.
    pub closed spec fn name_spec(self) -> Seq<char> {
        self.name@
    }

    /// The name given at establishment.
    pub fn name(&self) -> (r: &String)
        ensures
            r@ == self.name_spec(),
    {
        &self.name
    }
}

impl<G> Agent for CrossbeamInfiniteSender<G> {
    type Good = G;
}

impl<G> Producer for CrossbeamInfiniteSender<G> {
    type Flaws = WithdrawnDemand;

    /// Attempts once to send `good`; the channel is unbounded, so the one
    /// failure is that every consumer is gone, and the recall then returns
    /// `good` untouched.
    fn produce(&mut self, good: G) -> (r: Result<(), Recall<WithdrawnDemand, G>>)
        ensures
            r matches Err(recall) ==> recall.fault == Fault::<WithdrawnDemand>::Defect(
                WithdrawnDemand,
            ),
    {
        match crossbeam_send(&self.sender, good) {
            Ok(()) => Ok(()),
            Err(returned) => Err(Recall::new(Fault::Defect(WithdrawnDemand::new()), returned)),
        }
    }
}

/// The unbounded channel of the crossbeam library.
pub struct CrossbeamInfiniteChannel<G> {
    /// The type of the good exchanged on the channel.
    good: core::marker::PhantomData<G>,
}

impl<G> InfiniteChannel<G> for CrossbeamInfiniteChannel<G> {
    type Producer = CrossbeamInfiniteSender<G>;

    type Consumer = CrossbeamReceiver<G>;

    /// Creates the two connected ends of an unbounded channel, both named
    /// `name_str`.
    fn establish(name_str: &str) -> (CrossbeamInfiniteSender<G>, CrossbeamReceiver<G>) {
        let (sender, receiver) = crossbeam_establish();
        (
            CrossbeamInfiniteSender { name: name_str.to_owned(), sender },
            CrossbeamReceiver { name: name_str.to_owned(), receiver },
        )
    }
}

/// The bounded channel of the crossbeam library.
pub struct CrossbeamFiniteChannel<G> {
    /// The type of the good exchanged on the channel.
    good: core::marker::PhantomData<G>,
}

impl<G> FiniteChannel<G> for CrossbeamFiniteChannel<G> {
    type Producer = CrossbeamFiniteSender<G>;

    type Consumer = CrossbeamReceiver<G>;

    /// Creates the two connected ends of a channel with capacity `size`, both
    /// named `name_str`.
    fn establish(name_str: &str, size: usize) -> (
        CrossbeamFiniteSender<G>,
        CrossbeamReceiver<G>,
    ) {
        let (sender, receiver) = crossbeam_establish_bounded(size);
        (
            CrossbeamFiniteSender { name: name_str.to_owned(), sender },
            CrossbeamReceiver { name: name_str.to_owned(), receiver },
        )
    }
}

} // verus!
