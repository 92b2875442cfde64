use anvil_inspector::collector::{console_address, LogCollector};
use anvil_inspector::console::console_lines;
use anvil_inspector::inspector::Inspector;
use anvil_inspector::primitives::{
    Address, CallInputs, CallOutcome, CreateInputs, CreateOutcome, EvmContext, Gas, InstructionResult, Interpreter, Log, B256,
};
use anvil_inspector::trace::{TraceConfig, TraceEntry, TraceRecorder};

fn addr(lo: u128) -> Address {
    Address { hi: 0, lo }
}

fn call_to(contract: Address, gas_limit: u64, input: &[u8]) -> CallInputs {
    CallInputs { contract, caller: addr(0xca11e5), input: input.to_vec(), gas_limit }
}

fn tracer_entries(insp: &Inspector) -> Vec<TraceEntry> {
    insp.tracer.as_ref().expect("tracing is on").entries.clone()
}

#[test]
fn call_with_both_slots_continues_with_full_gas() {
    let mut insp = Inspector::new().with_tracing();
    let mut ctx = EvmContext { depth: 1 };
    let call = call_to(console_address(), 21000, b"hello");
    let r = insp.call(&mut ctx, &call);
    assert_eq!(r.status, InstructionResult::Continue);
    assert_eq!(r.gas, Gas { limit: 21000, remaining: 21000 });
    assert!(r.output.is_empty());
    let entries = tracer_entries(&insp);
    assert_eq!(entries.len(), 1);
    match &entries[0] {
        TraceEntry::Call { depth, contract, gas_limit, input, .. } => {
            assert_eq!(*depth, 1);
            assert_eq!(*contract, console_address());
            assert_eq!(*gas_limit, 21000);
            assert_eq!(input, &b"hello".to_vec());
        }
        other => panic!("unexpected entry {:?}", other),
    }
    assert_eq!(insp.log_collector.logs.len(), 1);
    assert_eq!(insp.log_collector.logs[0].address, console_address());
    assert!(insp.log_collector.logs[0].topics.is_empty());
    assert_eq!(insp.log_collector.logs[0].data, b"hello".to_vec());
    assert_eq!(ctx, EvmContext { depth: 1 });
}

#[test]
fn log_without_tracer_reaches_only_collector() {
    let mut insp = Inspector::new();
    let mut ctx = EvmContext { depth: 0 };
    let a = addr(0xaa);
    let t1 = B256 { hi: 1, lo: 2 };
    let d = vec![0xde, 0xad];
    insp.log(&mut ctx, &a, &vec![t1], &d);
    assert!(insp.tracer.is_none());
    assert_eq!(insp.log_collector.logs.len(), 1);
    let l = &insp.log_collector.logs[0];
    assert_eq!(l.address, a);
    assert_eq!(l.topics, vec![t1]);
    assert_eq!(l.data, d);
}

#[test]
fn log_with_tracer_reaches_both() {
    let mut insp = Inspector::new().with_tracing();
    let mut ctx = EvmContext { depth: 2 };
    let a = addr(0xbb);
    insp.log(&mut ctx, &a, &vec![], &vec![7]);
    let entries = tracer_entries(&insp);
    assert_eq!(entries.len(), 1);
    match &entries[0] {
        TraceEntry::Log { depth, log } => {
            assert_eq!(*depth, 2);
            assert_eq!(log.address, a);
            assert!(log.topics.is_empty());
            assert_eq!(log.data, vec![7]);
        }
        other => panic!("unexpected entry {:?}", other),
    }
    assert_eq!(insp.log_collector.logs.len(), 1);
}

#[test]
fn call_end_returns_the_given_outcome() {
    let mut insp = Inspector::new().with_tracing();
    let mut ctx = EvmContext { depth: 1 };
    let call = call_to(addr(0x42), 30000, b"");
    let gas = Gas { limit: 30000, remaining: 5000 };
    let r = insp.call_end(&mut ctx, &call, gas, InstructionResult::Revert, b"err".to_vec());
    assert_eq!(r.status, InstructionResult::Revert);
    assert_eq!(r.gas, gas);
    assert_eq!(r.gas.remaining, 5000);
    assert_eq!(r.output, b"err".to_vec());
    let entries = tracer_entries(&insp);
    assert_eq!(entries.len(), 1);
    match &entries[0] {
        TraceEntry::CallEnd { status, gas: g, output, .. } => {
            assert_eq!(*status, InstructionResult::Revert);
            assert_eq!(*g, gas);
            assert_eq!(output, &b"err".to_vec());
        }
        other => panic!("unexpected entry {:?}", other),
    }
    assert!(insp.log_collector.logs.is_empty());
}

#[test]
fn call_end_without_tracer_passes_through() {
    let mut insp = Inspector::new();
    let mut ctx = EvmContext { depth: 0 };
    let call = call_to(addr(0x42), 100, b"x");
    let gas = Gas { limit: 100, remaining: 0 };
    let r = insp.call_end(&mut ctx, &call, gas, InstructionResult::OutOfGas, vec![]);
    assert_eq!(r.status, InstructionResult::OutOfGas);
    assert_eq!(r.gas, gas);
    assert!(r.output.is_empty());
}

#[test]
fn three_records_second_fails_to_decode() {
    let lines = console_lines(vec![Some("first".to_string()), None, Some("third".to_string())]);
    assert_eq!(lines, vec!["first".to_string(), "third".to_string()]);
}

#[test]
fn console_lines_of_nothing_is_empty() {
    assert!(console_lines(vec![]).is_empty());
    assert!(console_lines(vec![None, None]).is_empty());
}

#[test]
fn console_lines_keep_order_and_count() {
    let attempts = vec![None, Some("a".to_string()), Some("b".to_string()), None, Some("c".to_string())];
    let lines = console_lines(attempts);
    assert_eq!(lines.len(), 3);
    assert_eq!(lines, vec!["a".to_string(), "b".to_string(), "c".to_string()]);
}

#[test]
fn create_continues_with_full_gas_and_no_address() {
    let mut insp = Inspector::new().with_tracing();
    let mut ctx = EvmContext { depth: 0 };
    let inputs = CreateInputs { caller: addr(1), init_code: vec![0x60, 0x00], gas_limit: 53000 };
    let r = insp.create(&mut ctx, &inputs);
    assert_eq!(r.status, InstructionResult::Continue);
    assert_eq!(r.address, None);
    assert_eq!(r.gas, Gas { limit: 53000, remaining: 53000 });
    assert!(r.output.is_empty());
    let entries = tracer_entries(&insp);
    match &entries[0] {
        TraceEntry::Create { init_code, gas_limit, .. } => {
            assert_eq!(init_code, &vec![0x60, 0x00]);
            assert_eq!(*gas_limit, 53000);
        }
        other => panic!("unexpected entry {:?}", other),
    }
}

#[test]
fn create_end_returns_the_given_outcome() {
    let mut insp = Inspector::new().with_tracing();
    let mut ctx = EvmContext { depth: 0 };
    let inputs = CreateInputs { caller: addr(1), init_code: vec![], gas_limit: 60000 };
    let gas = Gas { limit: 60000, remaining: 1234 };
    let created = Some(addr(0xc0de));
    let r = insp.create_end(&mut ctx, &inputs, InstructionResult::Return, created, gas, vec![1, 2, 3]);
    assert_eq!(r.status, InstructionResult::Return);
    assert_eq!(r.address, created);
    assert_eq!(r.gas, gas);
    assert_eq!(r.output, vec![1, 2, 3]);
    assert_eq!(tracer_entries(&insp).len(), 1);
}

#[test]
fn step_without_observers_changes_nothing() {
    let mut insp = Inspector::new();
    let mut ctx = EvmContext { depth: 3 };
    let interp = Interpreter { pc: 10, opcode: 0x01 };
    insp.initialize_interp(&interp, &mut ctx);
    insp.step(&interp, &mut ctx);
    insp.step_end(&interp, &mut ctx);
    assert!(insp.tracer.is_none());
    assert!(insp.log_collector.logs.is_empty());
    assert_eq!(ctx, EvmContext { depth: 3 });
}

#[test]
fn steps_are_traced_in_order() {
    let mut insp = Inspector::new().with_steps_tracing();
    let mut ctx = EvmContext { depth: 1 };
    let interp = Interpreter { pc: 4, opcode: 0x56 };
    insp.initialize_interp(&interp, &mut ctx);
    insp.step(&interp, &mut ctx);
    insp.step_end(&interp, &mut ctx);
    let entries = tracer_entries(&insp);
    assert_eq!(entries.len(), 3);
    assert!(matches!(entries[0], TraceEntry::Init { depth: 1, pc: 4 }));
    assert!(matches!(entries[1], TraceEntry::Step { depth: 1, pc: 4, opcode: 0x56 }));
    assert!(matches!(entries[2], TraceEntry::StepEnd { depth: 1, pc: 4, opcode: 0x56 }));
    assert!(insp.log_collector.logs.is_empty());
}

#[test]
fn frames_only_tracer_skips_steps() {
    let mut t = TraceRecorder::new(TraceConfig::frames_only());
    let ctx = EvmContext { depth: 0 };
    let interp = Interpreter { pc: 0, opcode: 0 };
    t.step(&interp, &ctx);
    t.step_end(&interp, &ctx);
    t.initialize_interp(&interp, &ctx);
    assert!(t.entries.is_empty());
    let out = t.call(&ctx, &call_to(addr(5), 9, b""));
    assert_eq!(out.gas, Gas::new(9));
    assert_eq!(t.entries.len(), 1);
}

#[test]
fn with_tracing_replaces_earlier_tracer() {
    let mut insp = Inspector::new().with_tracing();
    let mut ctx = EvmContext { depth: 0 };
    insp.step(&Interpreter { pc: 1, opcode: 0 }, &mut ctx);
    assert_eq!(tracer_entries(&insp).len(), 1);
    insp.log(&mut ctx, &addr(1), &vec![], &vec![]);
    let insp = insp.with_tracing();
    assert!(tracer_entries(&insp).is_empty());
    assert!(insp.tracer.as_ref().unwrap().config.record_steps);
    assert_eq!(insp.log_collector.logs.len(), 1);
}

#[test]
fn call_elsewhere_is_not_collected() {
    let mut insp = Inspector::new();
    let mut ctx = EvmContext { depth: 0 };
    let r = insp.call(&mut ctx, &call_to(addr(0x1234), 21000, b"data"));
    assert_eq!(r.status, InstructionResult::Continue);
    assert_eq!(r.gas.remaining, 21000);
    assert!(insp.log_collector.logs.is_empty());
}

#[test]
fn collector_keeps_logs_in_order() {
    let mut c = LogCollector::new();
    let ctx = EvmContext { depth: 0 };
    for i in 0..3u8 {
        let l = Log { address: addr(i as u128), topics: vec![B256 { hi: 0, lo: i as u128 }], data: vec![i] };
        c.log(&ctx, &l);
    }
    assert_eq!(c.logs.len(), 3);
    for i in 0..3u8 {
        assert_eq!(c.logs[i as usize].address, addr(i as u128));
        assert_eq!(c.logs[i as usize].data, vec![i]);
    }
}

#[test]
fn console_address_spells_console_log() {
    let a = console_address();
    assert_eq!(a.hi, 0);
    let bytes = a.lo.to_be_bytes();
    assert_eq!(&bytes[5..], b"console.log");
}

#[test]
fn default_inspector_is_empty() {
    let insp = Inspector::default();
    assert!(insp.tracer.is_none());
    assert!(insp.log_collector.logs.is_empty());
    assert_eq!(Gas::new(7), Gas { limit: 7, remaining: 7 });
}

#[test]
fn collector_takes_every_event_and_keeps_only_logs() {
    let mut c = LogCollector::new();
    let ctx = EvmContext { depth: 0 };
    let interp = Interpreter { pc: 2, opcode: 0x5b };
    c.initialize_interp(&interp, &ctx);
    c.step(&interp, &ctx);
    c.step_end(&interp, &ctx);
    let gas = Gas { limit: 10, remaining: 3 };
    let ended = c.call_end(
        &ctx,
        CallOutcome { status: InstructionResult::Stop, gas, output: vec![9] },
    );
    assert_eq!(ended.status, InstructionResult::Stop);
    assert_eq!(ended.gas, gas);
    assert_eq!(ended.output, vec![9]);
    let created = c.create(&ctx, &CreateInputs { caller: addr(3), init_code: vec![1], gas_limit: 77 });
    assert_eq!(created.status, InstructionResult::Continue);
    assert_eq!(created.gas, Gas::new(77));
    assert_eq!(created.address, None);
    let done = c.create_end(
        &ctx,
        CreateOutcome { status: InstructionResult::Return, address: Some(addr(8)), gas, output: vec![4] },
    );
    assert_eq!(done.address, Some(addr(8)));
    assert_eq!(done.output, vec![4]);
    assert!(c.logs.is_empty());
}
