use markets::agent::{Agent, Consumer};
use markets::compose::{ComposeDefect, Composer, Composite, Progress};
use markets::flaw::{ConsumptionFlaws, EmptyStock, Failure, Fault};

#[derive(Debug, PartialEq)]
struct MockMisstep;

#[derive(Clone, Debug, PartialEq)]
struct MockDefect;

struct MockConsumer {
    elements: Vec<Result<u8, Fault<ConsumptionFlaws<MockDefect>>>>,
}

impl MockConsumer {
    fn new(elements: Vec<Result<u8, Fault<ConsumptionFlaws<MockDefect>>>>) -> Self {
        Self { elements }
    }
}

impl Agent for MockConsumer {
    type Good = u8;
}

impl Consumer for MockConsumer {
    type Flaws = ConsumptionFlaws<MockDefect>;

    fn consume(&mut self) -> Result<u8, Failure<Self::Flaws>> {
        if self.elements.is_empty() {
            Err(Failure::new(Fault::Insufficiency(EmptyStock::new())))
        } else {
            self.elements.remove(0).map_err(Failure::new)
        }
    }
}

#[derive(Debug, PartialEq)]
struct MockComposite;

impl Composite<u8> for MockComposite {
    type Misstep = MockMisstep;

    fn compose(elements: &mut Vec<u8>) -> Result<Progress<Self>, Self::Misstep> {
        match elements.get(0) {
            Some(&0) => match elements.get(1) {
                Some(&1) => match elements.get(2) {
                    Some(&2) => {
                        elements.drain(0..3);
                        Ok(Progress::Ready(MockComposite))
                    }
                    Some(_) => {
                        elements.drain(0..3);
                        Err(MockMisstep)
                    }
                    None => Ok(Progress::Pending),
                },
                Some(_) => {
                    elements.drain(0..2);
                    Err(MockMisstep)
                }
                None => Ok(Progress::Pending),
            },
            Some(_) => {
                elements.drain(0..1);
                Err(MockMisstep)
            }
            None => Ok(Progress::Pending),
        }
    }
}

type MockFailure =
    Failure<markets::compose::CompositionFlaws<ConsumptionFlaws<MockDefect>, MockMisstep>>;

fn empty_stock_failure() -> MockFailure {
    Failure::new(Fault::Insufficiency(EmptyStock::new()))
}

fn consume_defect_failure() -> MockFailure {
    Failure::new(Fault::Defect(ComposeDefect::Consume(MockDefect)))
}

fn misstep_failure() -> MockFailure {
    Failure::new(Fault::Defect(ComposeDefect::Compose(MockMisstep)))
}

#[test]
fn compose_success() {
    let consumer = MockConsumer::new(vec![Ok(0), Ok(1), Ok(2)]);
    let mut composer = Composer::new(consumer);

    assert!(composer.consume() == Ok(MockComposite));
    assert!(composer.consume() == Err(empty_stock_failure()));
}

#[test]
fn compose_consume_insufficient_stock() {
    let consumer = MockConsumer::new(vec![
        Err(Fault::Insufficiency(EmptyStock::new())),
        Ok(0),
        Ok(1),
        Ok(2),
    ]);
    let mut composer = Composer::new(consumer);

    assert!(composer.consume() == Err(empty_stock_failure()));
    assert!(composer.consume() == Ok(MockComposite));
    assert!(composer.consume() == Err(empty_stock_failure()));
}

#[test]
fn compose_partial() {
    let consumer = MockConsumer::new(vec![
        Ok(0),
        Ok(1),
        Err(Fault::Insufficiency(EmptyStock::new())),
        Ok(2),
    ]);
    let mut composer = Composer::new(consumer);

    assert!(composer.consume() == Err(empty_stock_failure()));
    assert!(composer.consume() == Ok(MockComposite));
    assert!(composer.consume() == Err(empty_stock_failure()));
}

#[test]
fn compose_consume_fault() {
    let consumer = MockConsumer::new(vec![Err(Fault::Defect(MockDefect)), Ok(0), Ok(1), Ok(2)]);
    let mut composer = Composer::new(consumer);

    assert!(composer.consume() == Err(consume_defect_failure()));
    assert!(composer.consume() == Ok(MockComposite));
    assert!(composer.consume() == Err(empty_stock_failure()));
}

#[test]
fn compose_consume_fault_partial() {
    let consumer = MockConsumer::new(vec![Ok(0), Ok(1), Err(Fault::Defect(MockDefect)), Ok(2)]);
    let mut composer = Composer::new(consumer);

    assert!(composer.consume() == Err(consume_defect_failure()));
    assert!(composer.consume() == Ok(MockComposite));
    assert!(composer.consume() == Err(empty_stock_failure()));
}

#[test]
fn compose_build_error() {
    let consumer = MockConsumer::new(vec![Ok(9), Ok(0), Ok(1), Ok(2)]);
    let mut composer = Composer::new(consumer);

    assert!(composer.consume() == Err(misstep_failure()));
    assert!(composer.consume() == Ok(MockComposite));
    assert!(composer.consume() == Err(empty_stock_failure()));
}

#[test]
fn compose_build_error_partial() {
    let consumer = MockConsumer::new(vec![Ok(0), Ok(1), Ok(9), Ok(0), Ok(1), Ok(2)]);
    let mut composer = Composer::new(consumer);

    assert!(composer.consume() == Err(misstep_failure()));
    assert!(composer.consume() == Ok(MockComposite));
    assert!(composer.consume() == Err(empty_stock_failure()));
}

#[test]
fn compose_multiple() {
    let consumer = MockConsumer::new(vec![Ok(0), Ok(1), Ok(2), Ok(0), Ok(1), Ok(2)]);
    let mut composer = Composer::new(consumer);

    assert!(composer.consume() == Ok(MockComposite));
    assert!(composer.consume() == Ok(MockComposite));
    assert!(composer.consume() == Err(empty_stock_failure()));
}

#[test]
fn compose_ready_defers_defect() {
    // The source dies right after yielding a full composite: the composite is
    // returned, and the death is reported by the next call.
    let consumer = MockConsumer::new(vec![
        Ok(0),
        Ok(1),
        Ok(2),
        Err(Fault::Defect(MockDefect)),
        Err(Fault::Defect(MockDefect)),
    ]);
    let mut composer = Composer::new(consumer);

    assert!(composer.consume() == Ok(MockComposite));
    assert!(composer.consume() == Err(consume_defect_failure()));
}
