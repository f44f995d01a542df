//! Programs of calls into the homomorphic engine, and the session that hands
//! them out one call at a time and collects the engine's replies.
//!
//! A program is straight-line: it holds no branch, and which calls it makes
//! depends on public data only, never on an encrypted value. Call `k` may use
//! the replies to calls `0..k` as operands.
use vstd::prelude::*;
use inco_lightning::types::{Ebool, Euint128};
use crate::error::CustomError;

verus! {

/// Precision tag passed with every arithmetic call: this ledger never scales.
pub const SCALAR_BYTE: u8 = 0;

/// Where an operand of a call comes from.
#[derive(Clone, Copy, Debug, PartialEq, Eq)]
pub enum Operand {
    /// A handle read from a record or given by the caller.
    Stored(Euint128),
    /// The handle that the engine returned for an earlier call.
    Reply(usize),
}

/// One call of a program, with its operands still symbolic.
#[derive(Debug, PartialEq, Eq)]
pub enum Instr {
    /// Encrypt a public constant.
    Constant { value: u128 },
    /// Turn client-supplied ciphertext into a handle.
    Decode { ciphertext: Vec<u8>, input_type: u8 },
    Add { lhs: Operand, rhs: Operand },
    Sub { lhs: Operand, rhs: Operand },
    /// Encrypted `lhs >= rhs`; the one call whose reply is a flag.
    Ge { lhs: Operand, rhs: Operand },
    /// Encrypted `if cond { if_true } else { if_false }`; `cond` names the
    /// reply of an earlier `Ge`.
    Select { cond: usize, if_true: Operand, if_false: Operand },
}

/// A call for the engine to perform, with concrete operands.
#[derive(Debug, PartialEq, Eq)]
pub enum Call {
    Constant { value: u128 },
    Decode { ciphertext: Vec<u8>, input_type: u8 },
    Add { lhs: Euint128, rhs: Euint128 },
    Sub { lhs: Euint128, rhs: Euint128 },
    Ge { lhs: Euint128, rhs: Euint128 },
    Select { cond: Ebool, if_true: Euint128, if_false: Euint128 },
}

/// What the engine returned for a call.
#[derive(Clone, Copy, Debug, PartialEq, Eq)]
pub enum Reply {
    Number(Euint128),
    Flag(Ebool),
}

/// The instruction whose encrypted results a session produces; it decides
/// which records the replies are written to.
#[derive(Clone, Copy, Debug, PartialEq, Eq, Structural)]
pub enum OpKind {
    InitializeMint,
    InitializeAccount,
    MintTo,
    Transfer,
    Burn,
    Approve,
    Revoke,
}

pub open spec fn operand_wf(op: Operand, k: int, program: Seq<Instr>) -> bool {
    match op {
        Operand::Stored(_) => true,
        Operand::Reply(i) => i < k && !(program[i as int] is Ge),
    }
}

pub open spec fn instr_wf(instr: Instr, k: int, program: Seq<Instr>) -> bool {
    match instr {
        Instr::Constant { .. } => true,
        Instr::Decode { .. } => true,
        Instr::Add { lhs, rhs } => operand_wf(lhs, k, program) && operand_wf(rhs, k, program),
        Instr::Sub { lhs, rhs } => operand_wf(lhs, k, program) && operand_wf(rhs, k, program),
        Instr::Ge { lhs, rhs } => operand_wf(lhs, k, program) && operand_wf(rhs, k, program),
        Instr::Select { cond, if_true, if_false } => {
            &&& cond < k
            &&& program[cond as int] is Ge
            &&& operand_wf(if_true, k, program)
            &&& operand_wf(if_false, k, program)
        },
    }
}

/// Every operand refers to an earlier call, of the right kind.
pub open spec fn program_wf(program: Seq<Instr>) -> bool {
    forall|k: int| 0 <= k < program.len() ==> #[trigger] instr_wf(program[k], k, program)
}

/// Number of replies, at the end of the program, that the instruction
/// writes back to its records.
pub open spec fn output_count(kind: OpKind) -> nat {
    match kind {
        OpKind::InitializeMint => 1,
        OpKind::Approve => 1,
        OpKind::Revoke => 1,
        _ => 2,
    }
}

/// The last calls of the program yield numbers, one for each output; only
/// a transfer may have nothing to do.
pub open spec fn shape_wf(kind: OpKind, program: Seq<Instr>) -> bool {
    ||| (kind is Transfer && program.len() == 0)
    ||| {
        &&& output_count(kind) <= program.len()
        &&& forall|i: int|
            program.len() - output_count(kind) <= i < program.len() ==> !(#[trigger] program[i] is Ge)
    }
}

/// Reply `i` has the kind that call `i` returns.
pub open spec fn replies_wf(program: Seq<Instr>, replies: Seq<Reply>) -> bool {
    &&& replies.len() <= program.len()
    &&& forall|i: int| 0 <= i < replies.len() ==> (#[trigger] replies[i] is Flag) == (program[i] is Ge)
}

/// The handle an operand stands for, once the replies it needs are in.
pub open spec fn handle_of(op: Operand, replies: Seq<Reply>) -> Euint128 {
    match op {
        Operand::Stored(h) => h,
        Operand::Reply(i) => replies[i as int]->Number_0,
    }
}

/// The concrete call for `instr`: the same call, each operand replaced by its
/// handle.
pub open spec fn call_of(instr: Instr, replies: Seq<Reply>, call: Call) -> bool {
    match instr {
        Instr::Constant { value } => call == Call::Constant { value },
        Instr::Decode { ciphertext, input_type } => call matches Call::Decode {
            ciphertext: c,
            input_type: t,
        } && c@ == ciphertext@ && t == input_type,
        Instr::Add { lhs, rhs } => call == Call::Add {
            lhs: handle_of(lhs, replies),
            rhs: handle_of(rhs, replies),
        },
        Instr::Sub { lhs, rhs } => call == Call::Sub {
            lhs: handle_of(lhs, replies),
            rhs: handle_of(rhs, replies),
        },
        Instr::Ge { lhs, rhs } => call == Call::Ge {
            lhs: handle_of(lhs, replies),
            rhs: handle_of(rhs, replies),
        },
        Instr::Select { cond, if_true, if_false } => call == Call::Select {
            cond: replies[cond as int]->Flag_0,
            if_true: handle_of(if_true, replies),
            if_false: handle_of(if_false, replies),
        },
    }
}

/// A program of one instruction, run against the engine: it hands out the
/// program's calls in order and collects a reply for each.
pub struct Session {
    kind: OpKind,
    instrs: Vec<Instr>,
    replies: Vec<Reply>,
}

impl Session {
    #[verifier::type_invariant]
    spec fn inv(&self) -> bool {
        &&& program_wf(self.instrs@)
        &&& shape_wf(self.kind, self.instrs@)
        &&& replies_wf(self.instrs@, self.replies@)
    }

    pub closed spec fn kind_spec(&self) -> OpKind {
        self.kind
    }

    /// The calls, in order.
    pub closed spec fn program(&self) -> Seq<Instr> {
        self.instrs@
    }

    /// The replies received so far, in order.
    pub closed spec fn replies(&self) -> Seq<Reply> {
        self.replies@
    }

    pub open spec fn complete(&self) -> bool {
        self.replies().len() == self.program().len()
    }

    /// The number written back by the instruction, `back` places from the end
    /// of the program (1 is the last call).
    pub open spec fn output(&self, back: int) -> Euint128 {
        self.replies()[self.program().len() - back]->Number_0
    }

    pub(crate) fn start(kind: OpKind, instrs: Vec<Instr>) -> (s: Session)
        requires
            program_wf(instrs@),
            shape_wf(kind, instrs@),
        ensures
            s.kind_spec() == kind,
            s.program() == instrs@,
            s.replies().len() == 0,
    {
        Session { kind, instrs, replies: Vec::new() }
    }

    pub fn kind(&self) -> (r: OpKind)
        ensures
            r == self.kind_spec(),
    {
        self.kind
    }

    /// Number of calls in the program.
    pub fn len(&self) -> (r: usize)
        ensures
            r == self.program().len(),
    {
        self.instrs.len()
    }

    pub fn is_complete(&self) -> (r: bool)
        ensures
            r == self.complete(),
    {
        proof {
            use_type_invariant(self);
        }
        self.replies.len() == self.instrs.len()
    }

    fn resolve(&self, op: &Operand) -> (h: Euint128)
        requires
            operand_wf(*op, self.replies().len() as int, self.program()),
            self.replies().len() < self.program().len(),
        ensures
            h == handle_of(*op, self.replies()),
    {
        proof {
            use_type_invariant(self);
        }
        match op {
            Operand::Stored(h) => *h,
            Operand::Reply(i) => match self.replies[*i] {
                Reply::Number(h) => h,
                Reply::Flag(_) => vstd::pervasive::unreached(),
            },
        }
    }

    /// The next call to perform, or `None` once every call has its reply.
    pub fn next_call(&self) -> (r: Option<Call>)
        ensures
            r is None <==> self.complete(),
            r matches Option::Some(c) ==> call_of(
                self.program()[self.replies().len() as int],
                self.replies(),
                c,
            ),
    {
        proof {
            use_type_invariant(self);
        }
        let k = self.replies.len();
        if k >= self.instrs.len() {
            return None;
        }
        proof {
            assert(instr_wf(self.instrs@[k as int], k as int, self.instrs@));
        }
        let call = match &self.instrs[k] {
            Instr::Constant { value } => Call::Constant { value: *value },
            Instr::Decode { ciphertext, input_type } => Call::Decode {
                ciphertext: ciphertext.clone(),
                input_type: *input_type,
            },
            Instr::Add { lhs, rhs } => Call::Add { lhs: self.resolve(lhs), rhs: self.resolve(rhs) },
            Instr::Sub { lhs, rhs } => Call::Sub { lhs: self.resolve(lhs), rhs: self.resolve(rhs) },
            Instr::Ge { lhs, rhs } => Call::Ge { lhs: self.resolve(lhs), rhs: self.resolve(rhs) },
            Instr::Select { cond, if_true, if_false } => {
                let flag = match self.replies[*cond] {
                    Reply::Flag(b) => b,
                    Reply::Number(_) => vstd::pervasive::unreached(),
                };
                Call::Select {
                    cond: flag,
                    if_true: self.resolve(if_true),
                    if_false: self.resolve(if_false),
                }
            },
        };
        Some(call)
    }

    /// Takes the engine's reply to the next call. A reply of the wrong kind
    /// (a flag for a number or the reverse), or one past the end of the
    /// program, is refused and changes nothing.
    pub fn record(&mut self, reply: Reply) -> (accepted: bool)
        ensures
            accepted == (!old(self).complete() && ((reply is Flag) == (old(
                self,
            ).program()[old(self).replies().len() as int] is Ge))),
            final(self).kind_spec() == old(self).kind_spec(),
            final(self).program() == old(self).program(),
            final(self).replies() == if accepted {
                old(self).replies().push(reply)
            } else {
                old(self).replies()
            },
    {
        proof {
            use_type_invariant(&*self);
        }
        let k = self.replies.len();
        if k >= self.instrs.len() {
            return false;
        }
        let wants_flag = matches!(self.instrs[k], Instr::Ge { .. });
        let is_flag = matches!(reply, Reply::Flag(_));
        if wants_flag != is_flag {
            return false;
        }
        let mut replies = Vec::new();
        std::mem::swap(&mut replies, &mut self.replies);
        replies.push(reply);
        self.replies = replies;
        true
    }

    /// The number that the instruction writes back, `back` places from the
    /// end of a completed program.
    pub(crate) fn output_at(&self, back: usize) -> (h: Euint128)
        requires
            self.complete(),
            self.kind_spec() is Transfer ==> self.program().len() > 0,
            1 <= back <= output_count(self.kind_spec()),
        ensures
            h == self.output(back as int),
    {
        proof {
            use_type_invariant(self);
            let p = self.instrs@;
            assert(!(p[p.len() - back] is Ge));
        }
        match self.replies[self.instrs.len() - back] {
            Reply::Number(h) => h,
            Reply::Flag(_) => vstd::pervasive::unreached(),
        }
    }
}

/// `a + b` modulo 2^128, as the engine adds.
pub open spec fn wrapping_add(a: u128, b: u128) -> u128 {
    if a + b <= u128::MAX {
        (a + b) as u128
    } else {
        (a + b - u128::MAX - 1) as u128
    }
}

/// `a - b` modulo 2^128, as the engine subtracts.
pub open spec fn wrapping_sub(a: u128, b: u128) -> u128 {
    if a >= b {
        (a - b) as u128
    } else {
        (a - b + u128::MAX + 1) as u128
    }
}

/// `reply` is what a correct engine returns for `instr`, where `val` gives
/// the plaintext behind each number handle and `truth` the one behind each
/// flag. Nothing is said of a decoded ciphertext: its plaintext is whatever
/// the client encrypted.
pub open spec fn reply_faithful(
    instr: Instr,
    replies: Seq<Reply>,
    reply: Reply,
    val: spec_fn(Euint128) -> u128,
    truth: spec_fn(Ebool) -> bool,
) -> bool {
    match instr {
        Instr::Constant { value } => val(reply->Number_0) == value,
        Instr::Decode { .. } => true,
        Instr::Add { lhs, rhs } => val(reply->Number_0) == wrapping_add(
            val(handle_of(lhs, replies)),
            val(handle_of(rhs, replies)),
        ),
        Instr::Sub { lhs, rhs } => val(reply->Number_0) == wrapping_sub(
            val(handle_of(lhs, replies)),
            val(handle_of(rhs, replies)),
        ),
        Instr::Ge { lhs, rhs } => truth(reply->Flag_0) == (val(handle_of(lhs, replies)) >= val(
            handle_of(rhs, replies),
        )),
        Instr::Select { cond, if_true, if_false } => val(reply->Number_0) == if truth(
            replies[cond as int]->Flag_0,
        ) {
            val(handle_of(if_true, replies))
        } else {
            val(handle_of(if_false, replies))
        },
    }
}

/// Every reply received is what a correct engine returns.
pub open spec fn faithful(
    program: Seq<Instr>,
    replies: Seq<Reply>,
    val: spec_fn(Euint128) -> u128,
    truth: spec_fn(Ebool) -> bool,
) -> bool {
    forall|k: int|
        0 <= k < replies.len() ==> #[trigger] reply_faithful(program[k], replies, replies[k], val, truth)
}

/// What an instruction that calls the engine returns: the error `err` if
/// there is one, else a fresh session of kind `kind` that runs `program`.
pub open spec fn starts(
    r: Result<Session, CustomError>,
    err: Option<CustomError>,
    kind: OpKind,
    program: Seq<Instr>,
) -> bool {
    match err {
        Option::Some(e) => r == Err::<Session, CustomError>(e),
        Option::None => r matches Ok(s) && s.kind_spec() == kind && s.program() == program
            && s.replies().len() == 0,
    }
}

} // verus!
