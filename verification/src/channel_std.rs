//! Channels of the standard library presented as producers and consumers.
use crate::agent::{Agent, Consumer, Producer};
use crate::channel::{
    FiniteChannel, InfiniteChannel, ReceiveOutcome, SendAttempt, WithdrawnDemand, WithdrawnSupply,
};
use crate::flaw::{
    ConsumptionFlaws, EmptyStock, Failure, Fault, FullStock, ProductionFlaws, Recall,
};
use vstd::prelude::*;

verus! {

/// The sending end of an unbounded channel of the standard library.
#[verifier::external_type_specification]
#[verifier::external_body]
#[verifier::reject_recursive_types(G)]
pub struct ExMpscSender<G>(std::sync::mpsc::Sender<G>);

/// The sending end of a bounded channel of the standard library.
#[verifier::external_type_specification]
#[verifier::external_body]
#[verifier::reject_recursive_types(G)]
pub struct ExMpscSyncSender<G>(std::sync::mpsc::SyncSender<G>);

/// The receiving end of a channel of the standard library.
#[verifier::external_type_specification]
#[verifier::external_body]
#[verifier::reject_recursive_types(G)]
pub struct ExMpscReceiver<G>(std::sync::mpsc::Receiver<G>);

/// Relies on std::sync::mpsc::channel: returns the two connected ends of an
/// unbounded channel.
#[verifier::external_body]
fn mpsc_establish<G>() -> (std::sync::mpsc::Sender<G>, std::sync::mpsc::Receiver<G>) {
    std::sync::mpsc::channel()
}

/// Relies on std::sync::mpsc::sync_channel: returns the two connected ends of
/// a channel with buffer capacity `size`.
#[verifier::external_body]
fn mpsc_establish_sync<G>(size: usize) -> (
    std::sync::mpsc::SyncSender<G>,
    std::sync::mpsc::Receiver<G>,
) {
    std::sync::mpsc::sync_channel(size)
}

/// Relies on std::sync::mpsc::Sender::send: it never blocks, and on failure
/// (every receiver gone) the error carries the good back.
#[verifier::external_body]
fn mpsc_send<G>(sender: &std::sync::mpsc::Sender<G>, good: G) -> (r: Result<(), G>)
    ensures
        r matches Err(returned) ==> returned == good,
{
    sender.send(good).map_err(|error| error.0)
}

/// Relies on std::sync::mpsc::SyncSender::try_send: it never blocks, and on
/// failure (full channel or every receiver gone) the error carries the good
/// back.
#[verifier::external_body]
fn mpsc_try_send<G>(sender: &std::sync::mpsc::SyncSender<G>, good: G) -> (r: SendAttempt<G>)
    ensures
        r matches SendAttempt::Full(returned) ==> returned == good,
        r matches SendAttempt::Withdrawn(returned) ==> returned == good,
{
    match sender.try_send(good) {
        Ok(()) => SendAttempt::Accepted,
        Err(std::sync::mpsc::TrySendError::Full(returned)) => SendAttempt::Full(returned),
        Err(std::sync::mpsc::TrySendError::Disconnected(returned)) => SendAttempt::Withdrawn(
            returned,
        ),
    }
}

/// Relies on std::sync::mpsc::Receiver::try_recv: it never blocks, returning
/// a good, or empty, or disconnected when the channel is empty and every
/// sender is gone.
#[verifier::external_body]
fn mpsc_try_recv<G>(receiver: &std::sync::mpsc::Receiver<G>) -> (r: ReceiveOutcome<G>) {
    match receiver.try_recv() {
        Ok(good) => ReceiveOutcome::Good(good),
        Err(std::sync::mpsc::TryRecvError::Empty) => ReceiveOutcome::Empty,
        Err(std::sync::mpsc::TryRecvError::Disconnected) => ReceiveOutcome::Withdrawn,
    }
}

/// A consumer of the goods arriving on a channel of the standard library.
#[verifier::reject_recursive_types(G)]
pub struct StdReceiver<G> {
    /// The name of the channel.
    name: String,
    /// The receiving end of the channel.
    receiver: std::sync::mpsc::Receiver<G>,
}

impl<G> StdReceiver<G> {
    /// The name given at establishment.
    pub closed spec fn name_spec(self) -> Seq<char> {
        self.name@
    }

    /// The name given at establishment.
    pub fn name(&self) -> (r: &String)
        ensures
            r@ == self.name_spec(),
    {
        &self.name
    }

    /// The outcome the consumer presents for the channel's outcome `inner`:
    /// an empty channel is a transient shortage, a channel whose producers
    /// are all gone is a permanent defect.
    pub open spec fn receive_outcome_spec(inner: ReceiveOutcome<G>) -> Result<
        G,
        Failure<ConsumptionFlaws<WithdrawnSupply>>,
    > {
        match inner {
            ReceiveOutcome::Good(good) => Ok(good),
            ReceiveOutcome::Empty => Err(Failure { fault: Fault::Insufficiency(EmptyStock) }),
            ReceiveOutcome::Withdrawn => Err(
                Failure { fault: Fault::Defect(WithdrawnSupply) },
            ),
        }
    }
}

impl<G> Agent for StdReceiver<G> {
    type Good = G;
}

impl<G> Consumer for StdReceiver<G> {
    type Flaws = ConsumptionFlaws<WithdrawnSupply>;

    /// Attempts once to receive the next good from the channel.
    fn consume(&mut self) -> (r: Result<G, Failure<ConsumptionFlaws<WithdrawnSupply>>>)
        ensures
            exists|inner: ReceiveOutcome<G>| r == Self::receive_outcome_spec(inner),
    {
        let outcome = mpsc_try_recv(&self.receiver);
        let ghost inner = outcome;
        let r = match outcome {
            ReceiveOutcome::Good(good) => Ok(good),
            ReceiveOutcome::Empty => Err(Failure::new(Fault::Insufficiency(EmptyStock::new()))),
            ReceiveOutcome::Withdrawn => Err(
                Failure::new(Fault::Defect(WithdrawnSupply::new())),
            ),
        };
        proof {
            assert(r == Self::receive_outcome_spec(inner));
        }
        r
    }
}

/// A producer of goods onto an unbounded channel of the standard library.
#[verifier::reject_recursive_types(G)]
pub struct StdSender<G> {
    /// The name of the channel.
    name: String,
    /// The sending end of the channel.
    sender: std::sync::mpsc::Sender<G>,
}

impl<G> StdSender<G> {
    /// The name given at establishment.
    pub closed spec fn name_spec(self) -> Seq<char> {
        self.name@
    }

    /// The name given at establishment.
    pub fn name(&self) -> (r: &String)
        ensures
            r@ == self.name_spec(),
    {
        &self.name
    }
}

impl<G> Agent for StdSender<G> {
    type Good = G;
}

impl<G> Producer for StdSender<G> {
    type Flaws = WithdrawnDemand;

    /// Attempts once to send `good`; the channel is unbounded, so the one
    /// failure is that every consumer is gone, and the recall then returns
    /// `good` untouched.
    fn produce(&mut self, good: G) -> (r: Result<(), Recall<WithdrawnDemand, G>>)
        ensures
            r matches Err(recall) ==> recall.fault == Fault::<WithdrawnDemand>::Defect(
                WithdrawnDemand,
            ),
    {
        match mpsc_send(&self.sender, good) {
            Ok(()) => Ok(()),
            Err(returned) => Err(Recall::new(Fault::Defect(WithdrawnDemand::new()), returned)),
        }
    }
}

/// A producer of goods onto a bounded channel of the standard library.
#[verifier::reject_recursive_types(G)]
pub struct StdSyncSender<G> {
    /// The name of the channel.
    name: String,
    /// The sending end of the channel.
    sender: std::sync::mpsc::SyncSender<G>,
}

impl<G> StdSyncSender<G> {
    /// The name given at establishment.
    pub closed spec fn name_spec(self) -> Seq<char> {
        self.name@
    }

    /// The name given at establishment.
    pub fn name(&self) -> (r: &String)
        ensures
            r@ == self.name_spec(),
    {
        &self.name
    }

    /// The outcome the producer presents for the channel's outcome `inner`
    /// when producing `good`: a full channel is a transient shortage, a
    /// channel whose consumers are all gone is a permanent defect, and either
    /// way the good is recalled.
    pub open spec fn send_attempt_spec(inner: SendAttempt<G>, good: G) -> Result<
        (),
        Recall<ProductionFlaws<WithdrawnDemand>, G>,
    > {
        match inner {
            SendAttempt::Accepted => Ok(()),
            SendAttempt::Full(returned) => Err(
                Recall { fault: Fault::Insufficiency(FullStock), good: returned },
            ),
            SendAttempt::Withdrawn(returned) => Err(
                Recall { fault: Fault::Defect(WithdrawnDemand), good: returned },
            ),
        }
    }
}

impl<G> Agent for StdSyncSender<G> {
    type Good = G;
}

impl<G> Producer for StdSyncSender<G> {
    type Flaws = ProductionFlaws<WithdrawnDemand>;

    /// Attempts once to send `good`, classifying a full channel as transient
    /// and withdrawn consumers as permanent; a failed send recalls `good`
    /// untouched.
    fn produce(&mut self, good: G) -> (r: Result<(), Recall<ProductionFlaws<WithdrawnDemand>, G>>)
        ensures
            exists|inner: SendAttempt<G>| r == Self::send_attempt_spec(inner, good),
    {
        let outcome = mpsc_try_send(&self.sender, good);
        let ghost inner = outcome;
        let r = match outcome {
            SendAttempt::Accepted => Ok(()),
            SendAttempt::Full(returned) => Err(
                Recall::new(Fault::Insufficiency(FullStock::new()), returned),
            ),
            SendAttempt::Withdrawn(returned) => Err(
                Recall::new(Fault::Defect(WithdrawnDemand::new()), returned),
            ),
        };
        proof {
            assert(r == Self::send_attempt_spec(inner, good));
        }
        r
    }
}

/// The unbounded channel of the standard library.
pub struct StdInfiniteChannel<G> {
    /// The type of the good exchanged on the channel.
    good: core::marker::PhantomData<G>,
}

impl<G> InfiniteChannel<G> for StdInfiniteChannel<G> {
    type Producer = StdSender<G>;

    type Consumer = StdReceiver<G>;

    /// Creates the two connected ends of an unbounded channel, both named
    /// `name_str`.
    fn establish(name_str: &str) -> (StdSender<G>, StdReceiver<G>) {
        let (sender, receiver) = mpsc_establish();
        (
            StdSender { name: name_str.to_owned(), sender },
            StdReceiver { name: name_str.to_owned(), receiver },
        )
    }
}

/// The bounded channel of the standard library.
pub struct StdFiniteChannel<G> {
    /// The type of the good exchanged on the channel.
    good: core::marker::PhantomData<G>,
}

impl<G> FiniteChannel<G> for StdFiniteChannel<G> {
    type Producer = StdSyncSender<G>;

    type Consumer = StdReceiver<G>;

    /// Creates the two connected ends of a channel with buffer capacity
    /// `size`, both named `name_str`.
    fn establish(name_str: &str, size: usize) -> (StdSyncSender<G>, StdReceiver<G>) {
        let (sender, receiver) = mpsc_establish_sync(size);
        (
            StdSyncSender { name: name_str.to_owned(), sender },
            StdReceiver { name: name_str.to_owned(), receiver },
        )
    }
}

} // verus!
