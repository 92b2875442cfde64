//! Plain values that flow through the inspection hooks.
use vstd::prelude::*;

verus! {

/// A 160-bit account address, held as its high 32 bits and low 128 bits.
#[derive(Clone, Copy, Debug, PartialEq, Eq, Structural)]
pub struct Address {
    pub hi: u32,
    pub lo: u128,
}

/// A 256-bit word (a log topic), held as two 128-bit halves.
#[derive(Clone, Copy, Debug, PartialEq, Eq, Structural)]
pub struct B256 {
    pub hi: u128,
    pub lo: u128,
}

/// Gas accounting of one frame: the limit it was given and what is left.
#[derive(Clone, Copy, Debug, PartialEq, Eq, Structural)]
pub struct Gas {
    pub limit: u64,
    pub remaining: u64,
}

impl Gas {
    /// A fresh budget: nothing spent yet.
    pub fn new(limit: u64) -> (r: Gas)
        ensures
            r.limit == limit,
            r.remaining == limit,
    {
        Gas { limit, remaining: limit }
    }
}

/// How the interpreter stands after an instruction, or how a frame ended.
#[derive(Clone, Copy, Debug, PartialEq, Eq, Structural)]
pub enum InstructionResult {
    Continue,
    Stop,
    Return,
    SelfDestruct,
    Revert,
    CallTooDeep,
    OutOfFunds,
    OutOfGas,
    InvalidOpcode,
    StackUnderflow,
    StackOverflow,
}

/// The interpreter's cursor as the step hooks see it.
#[derive(Clone, Copy, Debug, PartialEq, Eq, Structural)]
pub struct Interpreter {
    pub pc: u64,
    pub opcode: u8,
}

/// The execution context handed to every hook; hooks read it and never keep it.
#[derive(Clone, Copy, Debug, PartialEq, Eq, Structural)]
pub struct EvmContext {
    pub depth: u64,
}

/// The parameters of a message call.
#[derive(Clone, Debug)]
pub struct CallInputs {
    pub contract: Address,
    pub caller: Address,
    pub input: Vec<u8>,
    pub gas_limit: u64,
}

/// The parameters of a contract creation.
#[derive(Clone, Debug)]
pub struct CreateInputs {
    pub caller: Address,
    pub init_code: Vec<u8>,
    pub gas_limit: u64,
}

/// A raw log record: emitting address, topics and data.
#[derive(Clone, Debug)]
pub struct Log {
    pub address: Address,
    pub topics: Vec<B256>,
    pub data: Vec<u8>,
}

/// What a call hook hands back: status, gas and output bytes.
#[derive(Clone, Debug)]
pub struct CallOutcome {
    pub status: InstructionResult,
    pub gas: Gas,
    pub output: Vec<u8>,
}

/// What a create hook hands back: status, created address, gas and output bytes.
#[derive(Clone, Debug)]
pub struct CreateOutcome {
    pub status: InstructionResult,
    pub address: Option<Address>,
    pub gas: Gas,
    pub output: Vec<u8>,
}

/// `new` is `old` with one more element at the end.
pub open spec fn grew_by_one<T>(old: Seq<T>, new: Seq<T>) -> bool {
    new.len() == old.len() + 1 && new.drop_last() == old
}

/// A copy of a byte string.
pub fn copy_bytes(b: &Vec<u8>) -> (r: Vec<u8>)
    ensures
        r@ == b@,
{
    let r = b.clone();
    assert(r@ =~= b@);
    r
}

/// A copy of a list of topics.
pub fn copy_topics(t: &Vec<B256>) -> (r: Vec<B256>)
    ensures
        r@ == t@,
{
    let mut r: Vec<B256> = Vec::new();
    let mut i: usize = 0;
    while i < t.len()
        invariant
            i <= t@.len(),
            r@ == t@.subrange(0, i as int),
        decreases t@.len() - i,
    {
        r.push(t[i]);
        i = i + 1;
        assert(r@ =~= t@.subrange(0, i as int));
    }
    assert(t@.subrange(0, t@.len() as int) =~= t@);
    r
}

/// The two logs hold the same address, topics and data.
pub open spec fn same_log(a: Log, b: Log) -> bool {
    &&& a.address == b.address
    &&& a.topics@ == b.topics@
    &&& a.data@ == b.data@
}

/// A copy of a log record.
pub fn copy_log(l: &Log) -> (r: Log)
    ensures
        same_log(r, *l),
{
    Log { address: l.address, topics: copy_topics(&l.topics), data: copy_bytes(&l.data) }
}

} // verus!
