//! Collects the raw log records of an execution, console calls included.
use vstd::prelude::*;
use crate::primitives::{
    copy_bytes, copy_log, grew_by_one, same_log, Address, CallInputs, CallOutcome, CreateInputs,
    CreateOutcome, EvmContext, Interpreter, Log,
};
use crate::trace::{
    continue_call_outcome, continue_create_outcome, is_continue_call, is_continue_create,
};

verus! {

/// High 32 bits of the console contract's address (the ASCII of "console.log").
pub const CONSOLE_ADDRESS_HI: u32 = 0;

/// Low 128 bits of the console contract's address.
pub const CONSOLE_ADDRESS_LO: u128 = 0x636F6e736F6c652e6c6f67;

/// `a` is the console contract that scripts call to print.
pub open spec fn is_console(a: Address) -> bool {
    a.hi == CONSOLE_ADDRESS_HI && a.lo == CONSOLE_ADDRESS_LO
}

/// The console contract's address.
pub fn console_address() -> (r: Address)
    ensures
        is_console(r),
{
    Address { hi: CONSOLE_ADDRESS_HI, lo: CONSOLE_ADDRESS_LO }
}

/// `l` is the record of a console call with input `input`.
pub open spec fn is_console_record(l: Log, input: Seq<u8>) -> bool {
    &&& is_console(l.address)
    &&& l.topics@.len() == 0
    &&& l.data@ == input
}

/// Gathers every log the execution emits, in order.
#[derive(Clone, Debug)]
pub struct LogCollector {
    pub logs: Vec<Log>,
}

impl LogCollector {
    /// A collector with nothing gathered yet.
    pub fn new() -> (r: LogCollector)
        ensures
            r.logs@.len() == 0,
    {
        LogCollector { logs: Vec::new() }
    }

    /// Keeps a copy of the emitted log.
    pub fn log(&mut self, ctx: &EvmContext, log: &Log)
        ensures
            grew_by_one(old(self).logs@, final(self).logs@),
            same_log(final(self).logs@.last(), *log),
    {
        self.logs.push(copy_log(log));
        assert(self.logs@.drop_last() =~= old(self).logs@);
    }

    /// Keeps a call to the console contract as a raw record of its input, and
    /// proposes to let every call go on untouched.
    pub fn call(&mut self, ctx: &EvmContext, inputs: &CallInputs) -> (r: CallOutcome)
        ensures
            is_console(inputs.contract) ==> grew_by_one(old(self).logs@, final(self).logs@)
                && is_console_record(final(self).logs@.last(), inputs.input@),
            !is_console(inputs.contract) ==> final(self).logs@ == old(self).logs@,
            is_continue_call(r, inputs.gas_limit),
    {
        if inputs.contract.hi == CONSOLE_ADDRESS_HI && inputs.contract.lo == CONSOLE_ADDRESS_LO {
            let record = Log {
                address: inputs.contract,
                topics: Vec::new(),
                data: copy_bytes(&inputs.input),
            };
            self.logs.push(record);
            assert(self.logs@.drop_last() =~= old(self).logs@);
        }
        continue_call_outcome(inputs.gas_limit)
    }

    /// Interpreter start-up emits no log: nothing is kept.
    pub fn initialize_interp(&mut self, interp: &Interpreter, ctx: &EvmContext)
        ensures
            final(self).logs@ == old(self).logs@,
    {
    }

    /// A step emits no log by itself: nothing is kept.
    pub fn step(&mut self, interp: &Interpreter, ctx: &EvmContext)
        ensures
            final(self).logs@ == old(self).logs@,
    {
    }

    /// The end of a step emits no log by itself: nothing is kept.
    pub fn step_end(&mut self, interp: &Interpreter, ctx: &EvmContext)
        ensures
            final(self).logs@ == old(self).logs@,
    {
    }

    /// Takes its own copy of how the call ended, keeps nothing, and proposes
    /// that outcome back.
    pub fn call_end(&mut self, ctx: &EvmContext, outcome: CallOutcome) -> (r: CallOutcome)
        ensures
            final(self).logs@ == old(self).logs@,
            r == outcome,
    {
        outcome
    }

    /// A creation is never a console call: nothing is kept, and it is proposed
    /// to go on untouched.
    pub fn create(&mut self, ctx: &EvmContext, inputs: &CreateInputs) -> (r: CreateOutcome)
        ensures
            final(self).logs@ == old(self).logs@,
            is_continue_create(r, inputs.gas_limit),
    {
        continue_create_outcome(inputs.gas_limit)
    }

    /// Takes its own copy of how the creation ended, keeps nothing, and
    /// proposes that outcome back.
    pub fn create_end(&mut self, ctx: &EvmContext, outcome: CreateOutcome) -> (r: CreateOutcome)
        ensures
            final(self).logs@ == old(self).logs@,
            r == outcome,
    {
        outcome
    }
}

} // verus!
