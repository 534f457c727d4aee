//! The consumer of a process: its byte outputs are assembled into composites
//! and its exit is watched, all behind one agent that yields whichever product
//! the process has ready.
use crate::agent::{Agent, Consumer};
use crate::compose::{ComposeDefect, Composer, Composite, CompositionFlaws};
use crate::flaw::{ConsumptionFlaws, EmptyStock, Failure, Fault, Flaws, Widen};
use crate::io::{ReadDefect, ReadNow, Reader};
use vstd::prelude::*;

verus! {

/// The defect thrown when watching for the exit of a process fails.
pub struct WaitDefect(pub std::io::Error);

/// An output from a process: a composite read on its normal output, a
/// composite read on its error output, or its exit.
pub enum Product<O, E, X> {
    /// The process wrote a composite to its normal output.
    Output(O),
    /// The process wrote a composite to its error output.
    Error(E),
    /// The process exited.
    Exit(X),
}

/// The defect thrown by the consumer of a process.
#[non_exhaustive]
pub enum ProcessDefect<O: Composite<u8>, E: Composite<u8>> {
    /// The bytes of the normal output could not be read or composed.
    Output(ComposeDefect<ReadDefect, O::Misstep>),
    /// The bytes of the error output could not be read or composed.
    Error(ComposeDefect<ReadDefect, E::Misstep>),
    /// Watching for the exit of the process failed.
    Exit(WaitDefect),
}

impl<O: Composite<u8>, E: Composite<u8>> Widen<WaitDefect> for ProcessDefect<O, E> {
    open spec fn widen_spec(narrow: WaitDefect) -> Self {
        ProcessDefect::Exit(narrow)
    }

    fn widen(narrow: WaitDefect) -> Self {
        ProcessDefect::Exit(narrow)
    }
}

/// The flaw domain of the consumer of a process whose outputs compose into
/// `O` and `E`.
pub struct ProcessFlaws<O, E> {
    /// The type of the normal output's composite.
    output: core::marker::PhantomData<O>,
    /// The type of the error output's composite.
    error: core::marker::PhantomData<E>,
}

impl<O: Composite<u8>, E: Composite<u8>> Flaws for ProcessFlaws<O, E> {
    type Insufficiency = EmptyStock;
    type Defect = ProcessDefect<O, E>;
}

/// The consumer of a process: composes `O`s from the bytes of its normal
/// output, `E`s from the bytes of its error output, and watches its exit
/// through the consumer `X`.
pub struct ProductConsumer<O, E, RO, RE, X> {
    /// Assembles the composites of the normal output.
    output_composer: Composer<u8, O, Reader<RO>>,
    /// Assembles the composites of the error output.
    error_composer: Composer<u8, E, Reader<RE>>,
    /// Watches for the exit of the process.
    exiter: X,
    /// The name of the process.
    name: String,
}

impl<O, E, RO, RE, X> ProductConsumer<O, E, RO, RE, X> {
    /// The name given at construction.
    pub closed spec fn name_spec(self) -> Seq<char> {
        self.name@
    }

    /// Creates a consumer of the process named `name`, reading its normal
    /// output from `output`, its error output from `error`, and its exit from
    /// `exiter`.
    pub fn new(output: RO, error: RE, exiter: X, name: String) -> (r: Self)
        ensures
            r.name_spec() == name@,
    {
        let output_name = name.clone();
        let error_name = name.clone();
        ProductConsumer {
            output_composer: Composer::new(Reader::new(output, output_name)),
            error_composer: Composer::new(Reader::new(error, error_name)),
            exiter,
            name,
        }
    }

    /// The name given at construction.
    pub fn name(&self) -> (r: &String)
        ensures
            r@ == self.name_spec(),
    {
        &self.name
    }
}

impl<O, E, RO, RE, X> Agent for ProductConsumer<O, E, RO, RE, X> where X: Consumer {
    type Good = Product<O, E, X::Good>;
}

impl<O, E, RO, RE, X> ProductConsumer<O, E, RO, RE, X> where
    O: Composite<u8>,
    E: Composite<u8>,
    RO: ReadNow,
    RE: ReadNow,
    X: Consumer<Flaws = ConsumptionFlaws<WaitDefect>>,
{
    /// The product resolved from the three sub-consumers' outcomes: the
    /// normal output is asked first, the error output only where the normal
    /// output had nothing ready, the exit only where neither output had; a
    /// defect anywhere is returned at once, and only when all three report
    /// transient shortages does the whole consumer report one.
    pub open spec fn product_spec(
        first: Result<O, Failure<CompositionFlaws<ConsumptionFlaws<ReadDefect>, O::Misstep>>>,
        second: Result<E, Failure<CompositionFlaws<ConsumptionFlaws<ReadDefect>, E::Misstep>>>,
        third: Result<X::Good, Failure<ConsumptionFlaws<WaitDefect>>>,
    ) -> Result<Product<O, E, X::Good>, Failure<ProcessFlaws<O, E>>> {
        match first {
            Ok(output) => Ok(Product::Output(output)),
            Err(first_failure) => match first_failure.fault {
                Fault::Defect(defect) => Err(
                    Failure { fault: Fault::Defect(ProcessDefect::Output(defect)) },
                ),
                Fault::Insufficiency(_) => match second {
                    Ok(error) => Ok(Product::Error(error)),
                    Err(second_failure) => match second_failure.fault {
                        Fault::Defect(defect) => Err(
                            Failure { fault: Fault::Defect(ProcessDefect::Error(defect)) },
                        ),
                        Fault::Insufficiency(_) => match third {
                            Ok(exit) => Ok(Product::Exit(exit)),
                            Err(third_failure) => match third_failure.fault {
                                Fault::Defect(defect) => Err(
                                    Failure { fault: Fault::Defect(ProcessDefect::Exit(defect)) },
                                ),
                                Fault::Insufficiency(_) => Err(
                                    Failure { fault: Fault::Insufficiency(EmptyStock) },
                                ),
                            },
                        },
                    },
                },
            },
        }
    }
}

impl<O, E, RO, RE, X> Consumer for ProductConsumer<O, E, RO, RE, X> where
    O: Composite<u8>,
    E: Composite<u8>,
    RO: ReadNow,
    RE: ReadNow,
    X: Consumer<Flaws = ConsumptionFlaws<WaitDefect>>,
{
    type Flaws = ProcessFlaws<O, E>;

    /// Attempts once to retrieve whichever product the process has ready,
    /// asking the normal output first, then the error output, then the exit.
    fn consume(&mut self) -> (r: Result<Product<O, E, X::Good>, Failure<ProcessFlaws<O, E>>>)
        ensures
            exists|
                first: Result<
                    O,
                    Failure<CompositionFlaws<ConsumptionFlaws<ReadDefect>, O::Misstep>>,
                >,
                second: Result<
                    E,
                    Failure<CompositionFlaws<ConsumptionFlaws<ReadDefect>, E::Misstep>>,
                >,
                third: Result<X::Good, Failure<ConsumptionFlaws<WaitDefect>>>,
            | r == Self::product_spec(first, second, third),
    {
        let first = self.output_composer.consume();
        let ghost first_g = first;
        let ghost mut second_g: Result<
            E,
            Failure<CompositionFlaws<ConsumptionFlaws<ReadDefect>, E::Misstep>>,
        > = arbitrary();
        let ghost mut third_g: Result<X::Good, Failure<ConsumptionFlaws<WaitDefect>>> =
            arbitrary();
        let r = match first {
            Ok(output) => Ok(Product::Output(output)),
            Err(first_failure) => match first_failure.fault {
                Fault::Defect(defect) => Err(
                    Failure::new(Fault::Defect(ProcessDefect::Output(defect))),
                ),
                Fault::Insufficiency(_) => {
                    let second = self.error_composer.consume();
                    proof {
                        second_g = second;
                    }
                    match second {
                        Ok(error) => Ok(Product::Error(error)),
                        Err(second_failure) => match second_failure.fault {
                            Fault::Defect(defect) => Err(
                                Failure::new(Fault::Defect(ProcessDefect::Error(defect))),
                            ),
                            Fault::Insufficiency(_) => {
                                let third = self.exiter.consume();
                                proof {
                                    third_g = third;
                                }
                                match third {
                                    Ok(exit) => Ok(Product::Exit(exit)),
                                    Err(third_failure) => match third_failure.fault {
                                        Fault::Defect(defect) => Err(
                                            Failure::new(
                                                Fault::Defect(ProcessDefect::Exit(defect)),
                                            ),
                                        ),
                                        Fault::Insufficiency(_) => Err(
                                            Failure::new(
                                                Fault::Insufficiency(EmptyStock::new()),
                                            ),
                                        ),
                                    },
                                }
                            },
                        },
                    }
                },
            },
        };
        proof {
            assert(r == Self::product_spec(first_g, second_g, third_g));
        }
        r
    }
}

} // verus!
