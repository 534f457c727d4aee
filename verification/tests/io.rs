use markets::agent::{Consumer, Producer};
use markets::flaw::{EmptyStock, Fault, FullStock};
use markets::io::{ReadNow, Reader, WriteNow, Writer};

struct MockInput {
    outcomes: Vec<Result<Option<u8>, std::io::Error>>,
}

impl ReadNow for MockInput {
    fn read_byte(&mut self) -> Result<Option<u8>, std::io::Error> {
        if self.outcomes.is_empty() {
            Ok(None)
        } else {
            self.outcomes.remove(0)
        }
    }
}

struct MockOutput {
    outcomes: Vec<Result<usize, std::io::Error>>,
}

impl WriteNow for MockOutput {
    fn write_byte(&mut self, _byte: u8) -> Result<usize, std::io::Error> {
        if self.outcomes.is_empty() {
            Ok(1)
        } else {
            self.outcomes.remove(0)
        }
    }
}

fn broken_pipe() -> std::io::Error {
    std::io::Error::new(std::io::ErrorKind::BrokenPipe, "broken pipe")
}

#[test]
fn reader_yields_bytes_then_shortage() {
    let input = MockInput {
        outcomes: vec![Ok(Some(3)), Ok(Some(7))],
    };
    let mut reader = Reader::new(input, String::from("stream"));

    assert!(matches!(reader.consume(), Ok(3)));
    assert!(matches!(reader.consume(), Ok(7)));
    match reader.consume() {
        Err(failure) => assert!(matches!(&failure.fault, Fault::Insufficiency(EmptyStock))),
        Ok(_) => panic!("an empty input yielded a byte"),
    }
    assert_eq!(reader.name().as_str(), "stream");
}

#[test]
fn reader_reports_input_error_as_defect() {
    let input = MockInput {
        outcomes: vec![Err(broken_pipe())],
    };
    let mut reader = Reader::new(input, String::from("stream"));

    match reader.consume() {
        Err(failure) => assert!(matches!(&failure.fault, Fault::Defect(_))),
        Ok(_) => panic!("a failing input yielded a byte"),
    }
}

#[test]
fn writer_takes_bytes() {
    let output = MockOutput { outcomes: Vec::new() };
    let mut writer = Writer::new(output, String::from("sink"));

    assert!(writer.produce(5).is_ok());
    assert!(writer.produce(6).is_ok());
    assert_eq!(writer.name().as_str(), "sink");
}

#[test]
fn writer_recalls_byte_when_output_full() {
    let output = MockOutput { outcomes: vec![Ok(0)] };
    let mut writer = Writer::new(output, String::from("sink"));

    match writer.produce(9) {
        Err(recall) => {
            assert!(matches!(&recall.fault, Fault::Insufficiency(FullStock)));
            assert_eq!(recall.good, 9);
        }
        Ok(()) => panic!("a full output took a byte"),
    }
}

#[test]
fn writer_recalls_byte_on_output_error() {
    let output = MockOutput { outcomes: vec![Err(broken_pipe())] };
    let mut writer = Writer::new(output, String::from("sink"));

    match writer.produce(9) {
        Err(recall) => {
            assert!(matches!(&recall.fault, Fault::Defect(_)));
            assert_eq!(recall.good, 9);
        }
        Ok(()) => panic!("a failing output took a byte"),
    }
}
