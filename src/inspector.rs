//! The inspection multiplexer: fans each lifecycle event out to the observers
//! that are present, in a fixed order, and never lets them change the outcome.
use vstd::prelude::*;
use crate::collector::{is_console, is_console_record, LogCollector};
use crate::primitives::{
    copy_bytes, copy_topics, grew_by_one, Address, CallInputs, CallOutcome,
    CreateInputs, CreateOutcome, EvmContext, Gas, InstructionResult, Interpreter, Log, B256,
};
use crate::trace::{
    is_call_end_entry, is_call_entry, is_continue_call, is_continue_create, is_create_end_entry,
    is_create_entry, is_log_entry, continue_call_outcome, continue_create_outcome, TraceConfig,
    TraceEntry, TraceRecorder,
};

verus! {

/// An observer slot of the multiplexer, in declaration order.
#[derive(Clone, Copy, Debug, PartialEq, Eq, Structural)]
pub enum Slot {
    Tracer,
    Collector,
}

/// A lifecycle event of the interpreter.
#[derive(Clone, Copy, Debug, PartialEq, Eq, Structural)]
pub enum Hook {
    InitializeInterp,
    Step,
    StepEnd,
    Log,
    Call,
    CallEnd,
    Create,
    CreateEnd,
}

/// The observer hooks that one event reaches, in order: the tracer first when
/// present, then the log collector, which is always present.
pub open spec fn dispatch_order(tracer_present: bool, h: Hook) -> Seq<(Slot, Hook)> {
    let first = if tracer_present { seq![(Slot::Tracer, h)] } else { Seq::empty() };
    first.push((Slot::Collector, h))
}

/// The tracer slot went from `o` to `n` by one step-family event `e`.
pub open spec fn tracer_stepped(o: Option<TraceRecorder>, n: Option<TraceRecorder>, e: TraceEntry) -> bool {
    match (o, n) {
        (Some(o), Some(n)) => o.steps_recorded(n, e),
        (None, None) => true,
        _ => false,
    }
}

/// The tracer slot went from `o` to `n` by one recorded entry that meets `p`.
pub open spec fn tracer_recorded(
    o: Option<TraceRecorder>,
    n: Option<TraceRecorder>,
    p: spec_fn(TraceEntry) -> bool,
) -> bool {
    match (o, n) {
        (Some(o), Some(n)) => {
            &&& n.config == o.config
            &&& grew_by_one(o.entries@, n.entries@)
            &&& p(n.entries@.last())
        },
        (None, None) => true,
        _ => false,
    }
}

/// The log emitted from `address` with these topics and data.
pub open spec fn log_of(address: Address, topics: Seq<B256>, data: Seq<u8>, l: Log) -> bool {
    l.address == address && l.topics@ == topics && l.data@ == data
}

/// Dispatches the interpreter's lifecycle events to its observers.
#[derive(Clone)]
pub struct Inspector {
    /// Records a structured trace, when tracing is on.
    pub tracer: Option<TraceRecorder>,
    /// Gathers every log, always present.
    pub log_collector: LogCollector,
    /// Every observer hook reached so far, in order.
    pub dispatched: Ghost<Seq<(Slot, Hook)>>,
}

impl Inspector {
    /// No tracer, an empty log collector, nothing dispatched.
    pub fn new() -> (r: Inspector)
        ensures
            r.tracer.is_none(),
            r.log_collector.logs@.len() == 0,
            r.dispatched@.len() == 0,
    {
        Inspector { tracer: None, log_collector: LogCollector::new(), dispatched: Ghost(Seq::empty()) }
    }

    /// Installs a tracer that records everything, replacing any earlier one.
    pub fn with_tracing(self) -> (r: Inspector)
        ensures
            r.tracer matches Some(t) && t.config.record_steps && t.entries@.len() == 0,
            r.log_collector == self.log_collector,
            r.dispatched@ == self.dispatched@,
    {
        let mut s = self;
        s.tracer = Some(TraceRecorder::new(TraceConfig::all()));
        s
    }

    /// Enables the recording of steps, which a full tracer does.
    pub fn with_steps_tracing(self) -> (r: Inspector)
        ensures
            r.tracer matches Some(t) && t.config.record_steps && t.entries@.len() == 0,
            r.log_collector == self.log_collector,
            r.dispatched@ == self.dispatched@,
    {
        self.with_tracing()
    }

    /// The journal grew by exactly the observer hooks that event `h` reaches.
    pub open spec fn journal_grew(old: Self, new: Self, h: Hook) -> bool {
        new.dispatched@ == old.dispatched@ + dispatch_order(old.tracer.is_some(), h)
    }

    pub fn initialize_interp(&mut self, interp: &Interpreter, ctx: &mut EvmContext)
        ensures
            Self::journal_grew(*old(self), *final(self), Hook::InitializeInterp),
            final(self).log_collector.logs@ == old(self).log_collector.logs@,
            tracer_stepped(
                old(self).tracer,
                final(self).tracer,
                TraceEntry::Init { depth: old(ctx).depth, pc: interp.pc },
            ),
            *final(ctx) == *old(ctx),
    {
        if let Some(t) = &mut self.tracer {
            t.initialize_interp(interp, ctx);
            self.dispatched = Ghost(self.dispatched@.push((Slot::Tracer, Hook::InitializeInterp)));
        }
        self.log_collector.initialize_interp(interp, ctx);
        self.dispatched = Ghost(self.dispatched@.push((Slot::Collector, Hook::InitializeInterp)));
        assert(self.dispatched@ =~= old(self).dispatched@ + dispatch_order(
            old(self).tracer.is_some(),
            Hook::InitializeInterp,
        ));
    }

    pub fn step(&mut self, interp: &Interpreter, ctx: &mut EvmContext)
        ensures
            Self::journal_grew(*old(self), *final(self), Hook::Step),
            final(self).log_collector.logs@ == old(self).log_collector.logs@,
            tracer_stepped(
                old(self).tracer,
                final(self).tracer,
                TraceEntry::Step { depth: old(ctx).depth, pc: interp.pc, opcode: interp.opcode },
            ),
            *final(ctx) == *old(ctx),
    {
        if let Some(t) = &mut self.tracer {
            t.step(interp, ctx);
            self.dispatched = Ghost(self.dispatched@.push((Slot::Tracer, Hook::Step)));
        }
        self.log_collector.step(interp, ctx);
        self.dispatched = Ghost(self.dispatched@.push((Slot::Collector, Hook::Step)));
        assert(self.dispatched@ =~= old(self).dispatched@ + dispatch_order(
            old(self).tracer.is_some(),
            Hook::Step,
        ));
    }

    pub fn step_end(&mut self, interp: &Interpreter, ctx: &mut EvmContext)
        ensures
            Self::journal_grew(*old(self), *final(self), Hook::StepEnd),
            final(self).log_collector.logs@ == old(self).log_collector.logs@,
            tracer_stepped(
                old(self).tracer,
                final(self).tracer,
                TraceEntry::StepEnd { depth: old(ctx).depth, pc: interp.pc, opcode: interp.opcode },
            ),
            *final(ctx) == *old(ctx),
    {
        if let Some(t) = &mut self.tracer {
            t.step_end(interp, ctx);
            self.dispatched = Ghost(self.dispatched@.push((Slot::Tracer, Hook::StepEnd)));
        }
        self.log_collector.step_end(interp, ctx);
        self.dispatched = Ghost(self.dispatched@.push((Slot::Collector, Hook::StepEnd)));
        assert(self.dispatched@ =~= old(self).dispatched@ + dispatch_order(
            old(self).tracer.is_some(),
            Hook::StepEnd,
        ));
    }

    pub fn log(&mut self, ctx: &mut EvmContext, address: &Address, topics: &Vec<B256>, data: &Vec<u8>)
        ensures
            Self::journal_grew(*old(self), *final(self), Hook::Log),
            tracer_recorded(
                old(self).tracer,
                final(self).tracer,
                |e: TraceEntry|
                    exists|l: Log| log_of(*address, topics@, data@, l) && is_log_entry(e, old(ctx).depth, l),
            ),
            grew_by_one(old(self).log_collector.logs@, final(self).log_collector.logs@),
            log_of(*address, topics@, data@, final(self).log_collector.logs@.last()),
            *final(ctx) == *old(ctx),
    {
        let log = Log { address: *address, topics: copy_topics(topics), data: copy_bytes(data) };
        if let Some(t) = &mut self.tracer {
            t.log(ctx, &log);
            self.dispatched = Ghost(self.dispatched@.push((Slot::Tracer, Hook::Log)));
        }
        self.log_collector.log(ctx, &log);
        self.dispatched = Ghost(self.dispatched@.push((Slot::Collector, Hook::Log)));
        assert(self.dispatched@ =~= old(self).dispatched@ + dispatch_order(
            old(self).tracer.is_some(),
            Hook::Log,
        ));
    }

    /// Shows the call to every observer, then lets it go on untouched whatever
    /// they proposed.
    pub fn call(&mut self, ctx: &mut EvmContext, inputs: &CallInputs) -> (r: CallOutcome)
        ensures
            Self::journal_grew(*old(self), *final(self), Hook::Call),
            tracer_recorded(
                old(self).tracer,
                final(self).tracer,
                |e: TraceEntry| is_call_entry(e, old(ctx).depth, *inputs),
            ),
            is_console(inputs.contract) ==> grew_by_one(
                old(self).log_collector.logs@,
                final(self).log_collector.logs@,
            ) && is_console_record(final(self).log_collector.logs@.last(), inputs.input@),
            !is_console(inputs.contract) ==> final(self).log_collector.logs@
                == old(self).log_collector.logs@,
            is_continue_call(r, inputs.gas_limit),
            *final(ctx) == *old(ctx),
    {
        if let Some(t) = &mut self.tracer {
            let _ = t.call(ctx, inputs);
            self.dispatched = Ghost(self.dispatched@.push((Slot::Tracer, Hook::Call)));
        }
        let _ = self.log_collector.call(ctx, inputs);
        self.dispatched = Ghost(self.dispatched@.push((Slot::Collector, Hook::Call)));
        assert(self.dispatched@ =~= old(self).dispatched@ + dispatch_order(
            old(self).tracer.is_some(),
            Hook::Call,
        ));
        continue_call_outcome(inputs.gas_limit)
    }

    /// Shows each observer its own copy of how the call ended, then hands that
    /// same outcome back.
    pub fn call_end(
        &mut self,
        ctx: &mut EvmContext,
        inputs: &CallInputs,
        remaining_gas: Gas,
        ret: InstructionResult,
        out: Vec<u8>,
    ) -> (r: CallOutcome)
        ensures
            Self::journal_grew(*old(self), *final(self), Hook::CallEnd),
            final(self).log_collector.logs@ == old(self).log_collector.logs@,
            tracer_recorded(
                old(self).tracer,
                final(self).tracer,
                |e: TraceEntry| is_call_end_entry(e, old(ctx).depth, r),
            ),
            r.status == ret,
            r.gas == remaining_gas,
            r.output == out,
            *final(ctx) == *old(ctx),
    {
        if let Some(t) = &mut self.tracer {
            let seen = CallOutcome { status: ret, gas: remaining_gas, output: copy_bytes(&out) };
            let _ = t.call_end(ctx, seen);
            self.dispatched = Ghost(self.dispatched@.push((Slot::Tracer, Hook::CallEnd)));
        }
        let copy = CallOutcome { status: ret, gas: remaining_gas, output: copy_bytes(&out) };
        let _ = self.log_collector.call_end(ctx, copy);
        self.dispatched = Ghost(self.dispatched@.push((Slot::Collector, Hook::CallEnd)));
        assert(self.dispatched@ =~= old(self).dispatched@ + dispatch_order(
            old(self).tracer.is_some(),
            Hook::CallEnd,
        ));
        CallOutcome { status: ret, gas: remaining_gas, output: out }
    }

    /// Shows the creation to every observer, then lets it go on untouched
    /// whatever they proposed.
    pub fn create(&mut self, ctx: &mut EvmContext, inputs: &CreateInputs) -> (r: CreateOutcome)
        ensures
            Self::journal_grew(*old(self), *final(self), Hook::Create),
            final(self).log_collector.logs@ == old(self).log_collector.logs@,
            tracer_recorded(
                old(self).tracer,
                final(self).tracer,
                |e: TraceEntry| is_create_entry(e, old(ctx).depth, *inputs),
            ),
            is_continue_create(r, inputs.gas_limit),
            *final(ctx) == *old(ctx),
    {
        if let Some(t) = &mut self.tracer {
            let _ = t.create(ctx, inputs);
            self.dispatched = Ghost(self.dispatched@.push((Slot::Tracer, Hook::Create)));
        }
        let _ = self.log_collector.create(ctx, inputs);
        self.dispatched = Ghost(self.dispatched@.push((Slot::Collector, Hook::Create)));
        assert(self.dispatched@ =~= old(self).dispatched@ + dispatch_order(
            old(self).tracer.is_some(),
            Hook::Create,
        ));
        continue_create_outcome(inputs.gas_limit)
    }

    /// Shows each observer its own copy of how the creation ended, then hands
    /// that same outcome back.
    pub fn create_end(
        &mut self,
        ctx: &mut EvmContext,
        inputs: &CreateInputs,
        status: InstructionResult,
        address: Option<Address>,
        gas: Gas,
        retdata: Vec<u8>,
    ) -> (r: CreateOutcome)
        ensures
            Self::journal_grew(*old(self), *final(self), Hook::CreateEnd),
            final(self).log_collector.logs@ == old(self).log_collector.logs@,
            tracer_recorded(
                old(self).tracer,
                final(self).tracer,
                |e: TraceEntry| is_create_end_entry(e, old(ctx).depth, r),
            ),
            r.status == status,
            r.address == address,
            r.gas == gas,
            r.output == retdata,
            *final(ctx) == *old(ctx),
    {
        if let Some(t) = &mut self.tracer {
            let seen = CreateOutcome { status, address, gas, output: copy_bytes(&retdata) };
            let _ = t.create_end(ctx, seen);
            self.dispatched = Ghost(self.dispatched@.push((Slot::Tracer, Hook::CreateEnd)));
        }
        let copy = CreateOutcome { status, address, gas, output: copy_bytes(&retdata) };
        let _ = self.log_collector.create_end(ctx, copy);
        self.dispatched = Ghost(self.dispatched@.push((Slot::Collector, Hook::CreateEnd)));
        assert(self.dispatched@ =~= old(self).dispatched@ + dispatch_order(
            old(self).tracer.is_some(),
            Hook::CreateEnd,
        ));
        CreateOutcome { status, address, gas, output: retdata }
    }
}

impl Default for Inspector {
    fn default() -> (r: Inspector)
        ensures
            r.tracer.is_none(),
            r.log_collector.logs@.len() == 0,
            r.dispatched@.len() == 0,
    {
        Inspector::new()
    }
}

/// Whatever slots are present, an event reaches each present observer
/// exactly once, no absent one, and the tracer before the log collector.
pub proof fn lemma_dispatch_order(tracer_present: bool, h: Hook)
    ensures
        dispatch_order(tracer_present, h).len() == (if tracer_present { 2int } else { 1int }),
        forall|k: int|
            0 <= k < dispatch_order(tracer_present, h).len() ==> #[trigger] dispatch_order(
                tracer_present,
                h,
            )[k].1 == h,
        dispatch_order(tracer_present, h).contains((Slot::Tracer, h)) == tracer_present,
        dispatch_order(tracer_present, h).contains((Slot::Collector, h)),
        dispatch_order(tracer_present, h) == if tracer_present {
            seq![(Slot::Tracer, h), (Slot::Collector, h)]
        } else {
            seq![(Slot::Collector, h)]
        },
{
    let d = dispatch_order(tracer_present, h);
    if tracer_present {
        assert(d =~= seq![(Slot::Tracer, h), (Slot::Collector, h)]);
        assert(d[0] == (Slot::Tracer, h));
    } else {
        assert(d =~= seq![(Slot::Collector, h)]);
        assert(!d.contains((Slot::Tracer, h))) by {
            assert forall|k: int| 0 <= k < d.len() implies d[k] != (Slot::Tracer, h) by {}
        }
    }
    assert(d[d.len() - 1] == (Slot::Collector, h));
}

/// With no tracer, a step-family event changes no observer's state: the tracer
/// stays absent and the collector keeps the logs it had. Only the ghost journal
/// notes the collector's hook.
pub proof fn lemma_silent_without_tracer(old: Inspector, new: Inspector, h: Hook, e: TraceEntry)
    requires
        old.tracer.is_none(),
        h == Hook::InitializeInterp || h == Hook::Step || h == Hook::StepEnd,
        Inspector::journal_grew(old, new, h),
        new.log_collector.logs@ == old.log_collector.logs@,
        tracer_stepped(old.tracer, new.tracer, e),
    ensures
        new.tracer.is_none(),
        new.log_collector.logs@ == old.log_collector.logs@,
        new.dispatched@ == old.dispatched@.push((Slot::Collector, h)),
{
    assert(new.dispatched@ =~= old.dispatched@.push((Slot::Collector, h)));
}

} // verus!
