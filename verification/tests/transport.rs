use markets::agent::{Consumer, Producer};
use markets::convert::{Adapter, Specifier, SpecificationDefect};
use markets::channel::{FiniteChannel, InfiniteChannel, WithdrawnDemand, WithdrawnSupply};
use markets::channel_crossbeam::{CrossbeamFiniteChannel, CrossbeamInfiniteChannel};
use markets::channel_std::{StdFiniteChannel, StdInfiniteChannel, StdReceiver, StdSender};
use markets::flaw::{ConsumptionFlaws, EmptyStock, Failure, Fault, FullStock};
use markets::queue::{FiniteQueue, InfiniteQueue};
use markets::queue_crossbeam::{CrossbeamFiniteQueue, CrossbeamInfiniteQueue};

#[test]
fn std_infinite_channel_exchanges_in_order() {
    let (mut sender, mut receiver) = StdInfiniteChannel::<u32>::establish("pipeline");
    assert!(sender.produce(1).is_ok());
    assert!(sender.produce(2).is_ok());

    assert!(receiver.consume() == Ok(1));
    assert!(receiver.consume() == Ok(2));
    assert!(receiver.consume() == Err(Failure::new(Fault::Insufficiency(EmptyStock::new()))));
    assert_eq!(sender.name().as_str(), "pipeline");
    assert_eq!(receiver.name().as_str(), "pipeline");
}

#[test]
fn std_infinite_channel_withdrawn_demand() {
    let (mut sender, receiver) = StdInfiniteChannel::<u32>::establish("cut");
    drop(receiver);

    match sender.produce(5) {
        Err(recall) => {
            assert!(matches!(&recall.fault, Fault::Defect(WithdrawnDemand)));
            assert_eq!(recall.good, 5);
        }
        Ok(()) => panic!("a send without receivers succeeded"),
    }
}

#[test]
fn std_receiver_reports_withdrawn_supply() {
    let (sender, mut receiver) = StdInfiniteChannel::<u32>::establish("cut");
    drop(sender);

    assert!(receiver.consume() == Err(Failure::new(Fault::Defect(WithdrawnSupply::new()))));
}

#[test]
fn std_finite_channel_reports_full() {
    let (mut sender, mut receiver) = StdFiniteChannel::<u32>::establish("narrow", 1);
    assert!(sender.produce(1).is_ok());

    match sender.produce(2) {
        Err(recall) => {
            assert!(matches!(&recall.fault, Fault::Insufficiency(FullStock)));
            assert_eq!(recall.good, 2);
        }
        Ok(()) => panic!("a full channel accepted a good"),
    }

    assert!(receiver.consume() == Ok(1));
}

#[test]
fn crossbeam_infinite_channel_exchanges_in_order() {
    let (mut sender, mut receiver) = CrossbeamInfiniteChannel::<u32>::establish("pipeline");
    assert!(sender.produce(10).is_ok());
    assert!(sender.produce(20).is_ok());

    assert!(receiver.consume() == Ok(10));
    assert!(receiver.consume() == Ok(20));
    assert!(receiver.consume() == Err(Failure::new(Fault::Insufficiency(EmptyStock::new()))));
}

#[test]
fn crossbeam_infinite_channel_withdrawn_demand() {
    let (mut sender, receiver) = CrossbeamInfiniteChannel::<u32>::establish("cut");
    drop(receiver);

    match sender.produce(5) {
        Err(recall) => {
            assert!(matches!(&recall.fault, Fault::Defect(WithdrawnDemand)));
            assert_eq!(recall.good, 5);
        }
        Ok(()) => panic!("a send without receivers succeeded"),
    }
}

#[test]
fn crossbeam_receiver_reports_withdrawn_supply() {
    let (sender, mut receiver) = CrossbeamInfiniteChannel::<u32>::establish("cut");
    drop(sender);

    assert!(receiver.consume() == Err(Failure::new(Fault::Defect(WithdrawnSupply::new()))));
}

#[test]
fn crossbeam_finite_channel_reports_full() {
    let (mut sender, mut receiver) = CrossbeamFiniteChannel::<u32>::establish("narrow", 1);
    assert!(sender.produce(1).is_ok());

    match sender.produce(2) {
        Err(recall) => {
            assert!(matches!(&recall.fault, Fault::Insufficiency(FullStock)));
            assert_eq!(recall.good, 2);
        }
        Ok(()) => panic!("a full channel accepted a good"),
    }

    assert!(receiver.consume() == Ok(1));
    assert_eq!(sender.name().as_str(), "narrow");
}

#[test]
fn infinite_queue_exchanges_in_order() {
    let mut queue: CrossbeamInfiniteQueue<u32> = InfiniteQueue::allocate("backlog");
    assert!(queue.produce(1).is_ok());
    assert!(queue.produce(2).is_ok());
    assert!(queue.produce(3).is_ok());

    assert!(queue.consume() == Ok(1));
    assert!(queue.consume() == Ok(2));
    assert!(queue.consume() == Ok(3));
    assert!(queue.consume() == Err(Failure::new(Fault::Insufficiency(EmptyStock::new()))));
    assert_eq!(queue.name().as_str(), "backlog");
}

#[test]
fn finite_queue_reports_full() {
    let mut queue: CrossbeamFiniteQueue<u32> = FiniteQueue::allocate("bounded", 2);
    assert!(queue.produce(1).is_ok());
    assert!(queue.produce(2).is_ok());

    match queue.produce(3) {
        Err(recall) => {
            assert!(matches!(&recall.fault, Fault::Insufficiency(FullStock)));
            assert_eq!(recall.good, 3);
        }
        Ok(()) => panic!("a full queue accepted a good"),
    }

    assert!(queue.consume() == Ok(1));
    assert!(queue.produce(3).is_ok());
    assert!(queue.consume() == Ok(2));
    assert!(queue.consume() == Ok(3));
    assert_eq!(queue.name().as_str(), "bounded");
}

#[test]
fn specifier_narrows_onto_channel() {
    let (sender, mut receiver) = StdInfiniteChannel::<u8>::establish("bytes");
    let mut specifier: Specifier<StdSender<u8>, u32, WithdrawnDemand> = Specifier::new(sender);

    assert!(specifier.produce(65).is_ok());
    assert!(receiver.consume() == Ok(65));

    match specifier.produce(70000) {
        Err(recall) => {
            assert!(matches!(
                &recall.fault,
                Fault::Defect(SpecificationDefect::Unspecifiable)
            ));
            assert_eq!(recall.good, 70000);
        }
        Ok(()) => panic!("an unspecifiable good was produced"),
    }

    drop(receiver);
    match specifier.produce(66) {
        Err(recall) => {
            assert!(matches!(
                &recall.fault,
                Fault::Defect(SpecificationDefect::Improducible(WithdrawnDemand))
            ));
            assert_eq!(recall.good, 66);
        }
        Ok(()) => panic!("a send without receivers succeeded"),
    }
}

#[test]
fn adapter_generalizes_channel_bytes() {
    let (mut sender, receiver) = StdInfiniteChannel::<u8>::establish("bytes");
    let mut adapter: Adapter<StdReceiver<u8>, u32, ConsumptionFlaws<WithdrawnSupply>> =
        Adapter::new(receiver);

    assert!(sender.produce(9).is_ok());
    assert!(adapter.consume() == Ok(9));
    assert!(adapter.consume() == Err(Failure::new(Fault::Insufficiency(EmptyStock::new()))));

    drop(sender);
    assert!(adapter.consume() == Err(Failure::new(Fault::Defect(WithdrawnSupply::new()))));
}
