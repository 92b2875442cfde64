//! A structured-trace recorder: one entry per lifecycle event it is shown.
use vstd::prelude::*;
use crate::primitives::{
    copy_bytes, copy_log, grew_by_one, same_log, Address, CallInputs, CallOutcome, CreateInputs, CreateOutcome,
    EvmContext, Gas, InstructionResult, Interpreter, Log,
};

verus! {

/// What the recorder keeps besides call frames.
#[derive(Clone, Copy, Debug, PartialEq, Eq, Structural)]
pub struct TraceConfig {
    /// Record interpreter initialisation and every opcode step.
    pub record_steps: bool,
}

impl TraceConfig {
    /// Record everything, steps included.
    pub fn all() -> (r: TraceConfig)
        ensures
            r.record_steps,
    {
        TraceConfig { record_steps: true }
    }

    /// Record call frames and logs only.
    pub fn frames_only() -> (r: TraceConfig)
        ensures
            !r.record_steps,
    {
        TraceConfig { record_steps: false }
    }
}

/// One recorded event, tagged with the call depth it happened at.
#[derive(Clone, Debug)]
pub enum TraceEntry {
    Init { depth: u64, pc: u64 },
    Step { depth: u64, pc: u64, opcode: u8 },
    StepEnd { depth: u64, pc: u64, opcode: u8 },
    Log { depth: u64, log: Log },
    Call { depth: u64, contract: Address, caller: Address, input: Vec<u8>, gas_limit: u64 },
    CallEnd { depth: u64, status: InstructionResult, gas: Gas, output: Vec<u8> },
    Create { depth: u64, caller: Address, init_code: Vec<u8>, gas_limit: u64 },
    CreateEnd {
        depth: u64,
        status: InstructionResult,
        address: Option<Address>,
        gas: Gas,
        output: Vec<u8>,
    },
}

/// `e` records the log `l` at depth `d`.
pub open spec fn is_log_entry(e: TraceEntry, d: u64, l: Log) -> bool {
    match e {
        TraceEntry::Log { depth, log } => depth == d && same_log(log, l),
        _ => false,
    }
}

/// `e` records entry into the call `c` at depth `d`.
pub open spec fn is_call_entry(e: TraceEntry, d: u64, c: CallInputs) -> bool {
    match e {
        TraceEntry::Call { depth, contract, caller, input, gas_limit } => {
            &&& depth == d
            &&& contract == c.contract
            &&& caller == c.caller
            &&& input@ == c.input@
            &&& gas_limit == c.gas_limit
        },
        _ => false,
    }
}

/// `e` records the end of a call at depth `d` with outcome `o`.
pub open spec fn is_call_end_entry(e: TraceEntry, d: u64, o: CallOutcome) -> bool {
    match e {
        TraceEntry::CallEnd { depth, status, gas, output } => {
            &&& depth == d
            &&& status == o.status
            &&& gas == o.gas
            &&& output@ == o.output@
        },
        _ => false,
    }
}

/// `e` records entry into the creation `c` at depth `d`.
pub open spec fn is_create_entry(e: TraceEntry, d: u64, c: CreateInputs) -> bool {
    match e {
        TraceEntry::Create { depth, caller, init_code, gas_limit } => {
            &&& depth == d
            &&& caller == c.caller
            &&& init_code@ == c.init_code@
            &&& gas_limit == c.gas_limit
        },
        _ => false,
    }
}

/// `e` records the end of a creation at depth `d` with outcome `o`.
pub open spec fn is_create_end_entry(e: TraceEntry, d: u64, o: CreateOutcome) -> bool {
    match e {
        TraceEntry::CreateEnd { depth, status, address, gas, output } => {
            &&& depth == d
            &&& status == o.status
            &&& address == o.address
            &&& gas == o.gas
            &&& output@ == o.output@
        },
        _ => false,
    }
}

/// `o` lets a call with this gas limit go on untouched.
pub open spec fn is_continue_call(o: CallOutcome, gas_limit: u64) -> bool {
    &&& o.status == InstructionResult::Continue
    &&& o.gas == (Gas { limit: gas_limit, remaining: gas_limit })
    &&& o.output@.len() == 0
}

/// `o` lets a creation with this gas limit go on untouched, with no address yet.
pub open spec fn is_continue_create(o: CreateOutcome, gas_limit: u64) -> bool {
    &&& o.status == InstructionResult::Continue
    &&& o.address.is_none()
    &&& o.gas == (Gas { limit: gas_limit, remaining: gas_limit })
    &&& o.output@.len() == 0
}

/// The neutral answer to a call: go on with the whole gas limit.
pub fn continue_call_outcome(gas_limit: u64) -> (r: CallOutcome)
    ensures
        is_continue_call(r, gas_limit),
{
    CallOutcome { status: InstructionResult::Continue, gas: Gas::new(gas_limit), output: Vec::new() }
}

/// The neutral answer to a creation: go on with the whole gas limit.
pub fn continue_create_outcome(gas_limit: u64) -> (r: CreateOutcome)
    ensures
        is_continue_create(r, gas_limit),
{
    CreateOutcome {
        status: InstructionResult::Continue,
        address: None,
        gas: Gas::new(gas_limit),
        output: Vec::new(),
    }
}

/// Records the structured trace of an execution.
#[derive(Clone, Debug)]
pub struct TraceRecorder {
    pub config: TraceConfig,
    pub entries: Vec<TraceEntry>,
}

impl TraceRecorder {
    /// An empty trace under the given configuration.
    pub fn new(config: TraceConfig) -> (r: TraceRecorder)
        ensures
            r.config == config,
            r.entries@.len() == 0,
    {
        TraceRecorder { config, entries: Vec::new() }
    }

    /// `new` is `self` after a step-family event `e`: kept only when steps are recorded.
    pub open spec fn steps_recorded(self, new: Self, e: TraceEntry) -> bool {
        &&& new.config == self.config
        &&& new.entries@ == if self.config.record_steps {
            self.entries@.push(e)
        } else {
            self.entries@
        }
    }

    pub fn initialize_interp(&mut self, interp: &Interpreter, ctx: &EvmContext)
        ensures
            old(self).steps_recorded(*final(self), TraceEntry::Init { depth: ctx.depth, pc: interp.pc }),
    {
        if self.config.record_steps {
            self.entries.push(TraceEntry::Init { depth: ctx.depth, pc: interp.pc });
        }
    }

    pub fn step(&mut self, interp: &Interpreter, ctx: &EvmContext)
        ensures
            old(self).steps_recorded(
                *final(self),
                TraceEntry::Step { depth: ctx.depth, pc: interp.pc, opcode: interp.opcode },
            ),
    {
        if self.config.record_steps {
            self.entries.push(TraceEntry::Step { depth: ctx.depth, pc: interp.pc, opcode: interp.opcode });
        }
    }

    pub fn step_end(&mut self, interp: &Interpreter, ctx: &EvmContext)
        ensures
            old(self).steps_recorded(
                *final(self),
                TraceEntry::StepEnd { depth: ctx.depth, pc: interp.pc, opcode: interp.opcode },
            ),
    {
        if self.config.record_steps {
            self.entries.push(TraceEntry::StepEnd { depth: ctx.depth, pc: interp.pc, opcode: interp.opcode });
        }
    }

    pub fn log(&mut self, ctx: &EvmContext, log: &Log)
        ensures
            final(self).config == old(self).config,
            grew_by_one(old(self).entries@, final(self).entries@),
            is_log_entry(final(self).entries@.last(), ctx.depth, *log),
    {
        self.entries.push(TraceEntry::Log { depth: ctx.depth, log: copy_log(log) });
        assert(self.entries@.drop_last() =~= old(self).entries@);
    }

    /// Records the call and proposes to let it go on untouched.
    pub fn call(&mut self, ctx: &EvmContext, inputs: &CallInputs) -> (r: CallOutcome)
        ensures
            final(self).config == old(self).config,
            grew_by_one(old(self).entries@, final(self).entries@),
            is_call_entry(final(self).entries@.last(), ctx.depth, *inputs),
            is_continue_call(r, inputs.gas_limit),
    {
        self.entries.push(
            TraceEntry::Call {
                depth: ctx.depth,
                contract: inputs.contract,
                caller: inputs.caller,
                input: copy_bytes(&inputs.input),
                gas_limit: inputs.gas_limit,
            },
        );
        assert(self.entries@.drop_last() =~= old(self).entries@);
        continue_call_outcome(inputs.gas_limit)
    }

    /// Records how the call ended and proposes that outcome back.
    pub fn call_end(&mut self, ctx: &EvmContext, outcome: CallOutcome) -> (r: CallOutcome)
        ensures
            final(self).config == old(self).config,
            grew_by_one(old(self).entries@, final(self).entries@),
            is_call_end_entry(final(self).entries@.last(), ctx.depth, outcome),
            r == outcome,
    {
        self.entries.push(
            TraceEntry::CallEnd {
                depth: ctx.depth,
                status: outcome.status,
                gas: outcome.gas,
                output: copy_bytes(&outcome.output),
            },
        );
        assert(self.entries@.drop_last() =~= old(self).entries@);
        outcome
    }

    /// Records the creation and proposes to let it go on untouched.
    pub fn create(&mut self, ctx: &EvmContext, inputs: &CreateInputs) -> (r: CreateOutcome)
        ensures
            final(self).config == old(self).config,
            grew_by_one(old(self).entries@, final(self).entries@),
            is_create_entry(final(self).entries@.last(), ctx.depth, *inputs),
            is_continue_create(r, inputs.gas_limit),
    {
        self.entries.push(
            TraceEntry::Create {
                depth: ctx.depth,
                caller: inputs.caller,
                init_code: copy_bytes(&inputs.init_code),
                gas_limit: inputs.gas_limit,
            },
        );
        assert(self.entries@.drop_last() =~= old(self).entries@);
        continue_create_outcome(inputs.gas_limit)
    }

    /// Records how the creation ended and proposes that outcome back.
    pub fn create_end(&mut self, ctx: &EvmContext, outcome: CreateOutcome) -> (r: CreateOutcome)
        ensures
            final(self).config == old(self).config,
            grew_by_one(old(self).entries@, final(self).entries@),
            is_create_end_entry(final(self).entries@.last(), ctx.depth, outcome),
            r == outcome,
    {
        self.entries.push(
            TraceEntry::CreateEnd {
                depth: ctx.depth,
                status: outcome.status,
                address: outcome.address,
                gas: outcome.gas,
                output: copy_bytes(&outcome.output),
            },
        );
        assert(self.entries@.drop_last() =~= old(self).entries@);
        outcome
    }
}

} // verus!
