use markets::agent::{Agent, Consumer, Producer};
use markets::collections::{Collector, DistributionDefect, Distributor, Keyed};
use markets::flaw::{
    ConsumptionFlaws, EmptyStock, Failure, Fault, FullStock, ProductionFlaws, Recall,
};

#[derive(Clone, Debug, PartialEq)]
struct MockDefect;

#[derive(Clone, Debug, PartialEq)]
struct Parcel {
    key: u8,
    load: u32,
}

impl Keyed<u8> for Parcel {
    fn key_spec(self) -> u8 {
        self.key
    }

    fn key(&self) -> &u8 {
        &self.key
    }
}

struct MockProducer {
    accepting: bool,
    broken: bool,
    received: Vec<Parcel>,
}

impl MockProducer {
    fn accepting() -> Self {
        Self {
            accepting: true,
            broken: false,
            received: Vec::new(),
        }
    }

    fn full() -> Self {
        Self {
            accepting: false,
            broken: false,
            received: Vec::new(),
        }
    }

    fn broken() -> Self {
        Self {
            accepting: false,
            broken: true,
            received: Vec::new(),
        }
    }
}

impl Agent for MockProducer {
    type Good = Parcel;
}

impl Producer for MockProducer {
    type Flaws = ProductionFlaws<MockDefect>;

    fn produce(&mut self, good: Parcel) -> Result<(), Recall<Self::Flaws, Parcel>> {
        if self.broken {
            Err(Recall::new(Fault::Defect(MockDefect), good))
        } else if self.accepting {
            self.received.push(good);
            Ok(())
        } else {
            Err(Recall::new(Fault::Insufficiency(FullStock::new()), good))
        }
    }
}

enum MockBehavior {
    Yields(Vec<Result<u32, Fault<ConsumptionFlaws<MockDefect>>>>),
    Explodes,
}

struct MockConsumer {
    behavior: MockBehavior,
}

impl Agent for MockConsumer {
    type Good = u32;
}

impl Consumer for MockConsumer {
    type Flaws = ConsumptionFlaws<MockDefect>;

    fn consume(&mut self) -> Result<u32, Failure<Self::Flaws>> {
        match &mut self.behavior {
            MockBehavior::Yields(elements) => {
                if elements.is_empty() {
                    Err(Failure::new(Fault::Insufficiency(EmptyStock::new())))
                } else {
                    elements.remove(0).map_err(Failure::new)
                }
            }
            MockBehavior::Explodes => panic!("a consumer past the scan's decision was invoked"),
        }
    }
}

fn insufficient() -> MockConsumer {
    MockConsumer {
        behavior: MockBehavior::Yields(vec![Err(Fault::Insufficiency(EmptyStock::new()))]),
    }
}

fn yielding(good: u32) -> MockConsumer {
    MockConsumer {
        behavior: MockBehavior::Yields(vec![Ok(good)]),
    }
}

fn defective() -> MockConsumer {
    MockConsumer {
        behavior: MockBehavior::Yields(vec![Err(Fault::Defect(MockDefect))]),
    }
}

fn explosive() -> MockConsumer {
    MockConsumer {
        behavior: MockBehavior::Explodes,
    }
}

#[test]
fn collector_ordering() {
    let mut collector = Collector::new(String::from("ordered"));
    collector.push(insufficient());
    collector.push(yielding(42));
    collector.push(explosive());

    assert!(collector.consume() == Ok(42));
}

#[test]
fn collector_short_circuit() {
    let mut collector = Collector::new(String::from("guarded"));
    collector.push(defective());
    collector.push(explosive());

    assert!(collector.consume() == Err(Failure::new(Fault::Defect(MockDefect))));
}

#[test]
fn collector_empty() {
    let mut collector: Collector<MockConsumer> = Collector::new(String::from("empty"));

    assert!(collector.consume() == Err(Failure::new(Fault::Insufficiency(EmptyStock::new()))));
    assert_eq!(collector.name().as_str(), "empty");
}

#[test]
fn collector_all_insufficient() {
    let mut collector = Collector::new(String::from("drained"));
    collector.push(insufficient());
    collector.push(insufficient());

    assert!(collector.consume() == Err(Failure::new(Fault::Insufficiency(EmptyStock::new()))));
}

#[test]
fn collector_later_source() {
    let mut collector = Collector::new(String::from("fallback"));
    collector.push(insufficient());
    collector.push(insufficient());
    collector.push(yielding(7));

    assert!(collector.consume() == Ok(7));
}

#[test]
fn distributor_missing_key() {
    let mut distributor: Distributor<u8, MockProducer> = Distributor::new("router");
    distributor.insert(1, MockProducer::accepting());

    let stray = Parcel { key: 9, load: 99 };
    match distributor.produce(stray.clone()) {
        Err(recall) => {
            assert!(matches!(&recall.fault, Fault::Defect(DistributionDefect::MissingKey)));
            assert_eq!(recall.good, stray);
        }
        Ok(()) => panic!("a good with an unregistered key was produced"),
    }
}

#[test]
fn distributor_routes_by_key() {
    let mut distributor: Distributor<u8, MockProducer> = Distributor::new("router");
    distributor.insert(1, MockProducer::accepting());
    distributor.insert(2, MockProducer::accepting());

    assert!(distributor.produce(Parcel { key: 2, load: 20 }).is_ok());
    assert!(distributor.produce(Parcel { key: 1, load: 10 }).is_ok());
    assert!(distributor.produce(Parcel { key: 2, load: 21 }).is_ok());

    let first = distributor.insert(1, MockProducer::accepting()).unwrap();
    let second = distributor.insert(2, MockProducer::accepting()).unwrap();
    assert_eq!(first.received, vec![Parcel { key: 1, load: 10 }]);
    assert_eq!(
        second.received,
        vec![Parcel { key: 2, load: 20 }, Parcel { key: 2, load: 21 }]
    );
}

#[test]
fn distributor_replaces_route() {
    let mut distributor: Distributor<u8, MockProducer> = Distributor::new("router");
    assert!(distributor.insert(5, MockProducer::accepting()).is_none());
    let old = distributor.insert(5, MockProducer::full());
    assert!(old.is_some());
    assert_eq!(distributor.name().as_str(), "router");

    // The replacement producer now serves the key: it is full, so the good
    // comes back with the inner fault widened, classification kept.
    let parcel = Parcel { key: 5, load: 50 };
    match distributor.produce(parcel.clone()) {
        Err(recall) => {
            assert!(matches!(&recall.fault, Fault::Insufficiency(FullStock)));
            assert_eq!(recall.good, parcel);
        }
        Ok(()) => panic!("a full producer accepted a good"),
    }
}

#[test]
fn distributor_wraps_inner_defect() {
    let mut distributor: Distributor<u8, MockProducer> = Distributor::new("router");
    distributor.insert(3, MockProducer::broken());

    let parcel = Parcel { key: 3, load: 30 };
    match distributor.produce(parcel.clone()) {
        Err(recall) => {
            assert!(matches!(
                &recall.fault,
                Fault::Defect(DistributionDefect::Specification(MockDefect))
            ));
            assert_eq!(recall.good, parcel);
        }
        Ok(()) => panic!("a broken producer accepted a good"),
    }
}
