//! Byte-stream endpoints: a consumer over anything that can read one byte
//! without blocking, and a producer over anything that can write one byte
//! without blocking.
use crate::agent::{Agent, Consumer, Producer};
use crate::flaw::{
    ConsumptionFlaws, EmptyStock, Failure, Fault, FullStock, ProductionFlaws, Recall,
};
use vstd::prelude::*;

verus! {

/// The type of errors the standard library reports for input and output.
#[verifier::external_type_specification]
#[verifier::external_body]
pub struct ExIoError(std::io::Error);

/// An item that reads from an input without blocking.
pub trait ReadNow {
    /// Attempts once to read one byte: a byte on success, `None` where the
    /// input has nothing to give right now, an error where the input failed.
    fn read_byte(&mut self) -> Result<Option<u8>, std::io::Error>;
}

/// An item that writes to an output without blocking.
pub trait WriteNow {
    /// Attempts once to write `byte`, returning how many bytes were taken:
    /// zero where the output cannot take the byte right now.
    fn write_byte(&mut self, byte: u8) -> Result<usize, std::io::Error>;
}

/// The defect thrown when a consumer fails to read from an input.
pub struct ReadDefect(pub std::io::Error);

impl From<std::io::Error> for ReadDefect {
    fn from(error: std::io::Error) -> (r: Self) {
        ReadDefect(error)
    }
}

impl vstd::std_specs::convert::FromSpecImpl<std::io::Error> for ReadDefect {
    open spec fn obeys_from_spec() -> bool {
        true
    }

    open spec fn from_spec(error: std::io::Error) -> Self {
        ReadDefect(error)
    }
}

/// The defect thrown when a producer fails to write to an output.
pub struct WriteDefect(pub std::io::Error);

impl From<std::io::Error> for WriteDefect {
    fn from(error: std::io::Error) -> (r: Self) {
        WriteDefect(error)
    }
}

impl vstd::std_specs::convert::FromSpecImpl<std::io::Error> for WriteDefect {
    open spec fn obeys_from_spec() -> bool {
        true
    }

    open spec fn from_spec(error: std::io::Error) -> Self {
        WriteDefect(error)
    }
}

/// A consumer of the bytes of an input.
pub struct Reader<R> {
    /// The name of the reader.
    name: String,
    /// The input.
    reader: R,
}

impl<R> Reader<R> {
    /// The wrapped input.
    pub closed spec fn inner(self) -> R {
        self.reader
    }

    /// The name given at construction.
    pub closed spec fn name_spec(self) -> Seq<char> {
        self.name@
    }

    /// Creates a reader of the bytes of `reader`.
    pub fn new(reader: R, name: String) -> (r: Self)
        ensures
            r.inner() == reader,
            r.name_spec() == name@,
    {
        Reader { reader, name }
    }

    /// The name given at construction.
    pub fn name(&self) -> (r: &String)
        ensures
            r@ == self.name_spec(),
    {
        &self.name
    }
}

impl<R> Agent for Reader<R> {
    type Good = u8;
}

impl<R: ReadNow> Reader<R> {
    /// The outcome the reader presents for the input's outcome `inner`: a
    /// byte is the good, an empty input is a transient shortage, an input
    /// error is a permanent defect.
    pub open spec fn read_outcome_spec(inner: Result<Option<u8>, std::io::Error>) -> Result<
        u8,
        Failure<ConsumptionFlaws<ReadDefect>>,
    > {
        match inner {
            Ok(Some(byte)) => Ok(byte),
            Ok(None) => Err(Failure { fault: Fault::Insufficiency(EmptyStock) }),
            Err(error) => Err(Failure { fault: Fault::Defect(ReadDefect(error)) }),
        }
    }
}

impl<R: ReadNow> Consumer for Reader<R> {
    type Flaws = ConsumptionFlaws<ReadDefect>;

    /// Attempts to read one byte, classifying an empty input as transient and
    /// an input error as permanent.
    fn consume(&mut self) -> (r: Result<u8, Failure<ConsumptionFlaws<ReadDefect>>>)
        ensures
            exists|inner: Result<Option<u8>, std::io::Error>| r == Self::read_outcome_spec(inner),
    {
        let outcome = self.reader.read_byte();
        let ghost inner = outcome;
        let r = match outcome {
            Ok(Some(byte)) => Ok(byte),
            Ok(None) => Err(Failure::new(Fault::Insufficiency(EmptyStock::new()))),
            Err(error) => Err(Failure::new(Fault::Defect(ReadDefect(error)))),
        };
        proof {
            assert(r == Self::read_outcome_spec(inner));
        }
        r
    }
}

/// A producer of bytes to an output.
pub struct Writer<W> {
    /// The name of the writer.
    name: String,
    /// The output.
    writer: W,
}

impl<W> Writer<W> {
    /// The wrapped output.
    pub closed spec fn inner(self) -> W {
        self.writer
    }

    /// The name given at construction.
    pub closed spec fn name_spec(self) -> Seq<char> {
        self.name@
    }

    /// Creates a writer of bytes to `writer`.
    pub fn new(writer: W, name: String) -> (r: Self)
        ensures
            r.inner() == writer,
            r.name_spec() == name@,
    {
        Writer { writer, name }
    }

    /// The name given at construction.
    pub fn name(&self) -> (r: &String)
        ensures
            r@ == self.name_spec(),
    {
        &self.name
    }
}

impl<W> Agent for Writer<W> {
    type Good = u8;
}

impl<W: WriteNow> Writer<W> {
    /// The outcome the writer presents for the output's outcome `inner` when
    /// producing `byte`: a full output is a transient shortage, an output
    /// error is a permanent defect, and either way the byte is recalled.
    pub open spec fn write_outcome_spec(
        inner: Result<usize, std::io::Error>,
        byte: u8,
    ) -> Result<(), Recall<ProductionFlaws<WriteDefect>, u8>> {
        match inner {
            Ok(written) => if written == 0 {
                Err(Recall { fault: Fault::Insufficiency(FullStock), good: byte })
            } else {
                Ok(())
            },
            Err(error) => Err(Recall { fault: Fault::Defect(WriteDefect(error)), good: byte }),
        }
    }
}

impl<W: WriteNow> Producer for Writer<W> {
    type Flaws = ProductionFlaws<WriteDefect>;

    /// Attempts to write `good`, classifying a full output as transient and
    /// an output error as permanent; a failed write recalls the byte.
    fn produce(&mut self, good: u8) -> (r: Result<(), Recall<ProductionFlaws<WriteDefect>, u8>>)
        ensures
            exists|inner: Result<usize, std::io::Error>| r == Self::write_outcome_spec(
                inner,
                good,
            ),
    {
        let outcome = self.writer.write_byte(good);
        let ghost inner = outcome;
        let r = match outcome {
            Ok(written) => if written == 0 {
                Err(Recall::new(Fault::Insufficiency(FullStock::new()), good))
            } else {
                Ok(())
            },
            Err(error) => Err(Recall::new(Fault::Defect(WriteDefect(error)), good)),
        };
        proof {
            assert(r == Self::write_outcome_spec(inner, good));
        }
        r
    }
}

} // verus!
