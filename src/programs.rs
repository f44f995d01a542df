//! The engine programs of the instructions that touch encrypted values.
//!
//! Moving an encrypted amount cannot branch on whether the balance covers
//! it: the comparison itself is encrypted. So the debit programs compare,
//! select under encryption either the amount or an encrypted zero, and then
//! always subtract and add the selected value. The same calls are made
//! whether or not the balance sufficed.
use vstd::prelude::*;
use inco_lightning::types::Euint128;
use crate::engine::{Instr, Operand, program_wf, instr_wf};

verus! {

/// How the caller supplies the amount an instruction moves.
#[derive(Debug, PartialEq, Eq)]
pub enum AmountSource {
    /// Ciphertext produced by a client, with the engine's input-type tag; the
    /// engine decodes it by the program's first call.
    Ciphertext { ciphertext: Vec<u8>, input_type: u8 },
    /// A handle that the engine issued already.
    Handle(Euint128),
}

/// The calls that obtain the amount: one decode for ciphertext, none for a
/// handle.
pub open spec fn amount_prefix(a: AmountSource) -> Seq<Instr> {
    match a {
        AmountSource::Ciphertext { ciphertext, input_type } => seq![
            Instr::Decode { ciphertext, input_type },
        ],
        AmountSource::Handle(_) => seq![],
    }
}

/// The operand that stands for the amount in the rest of the program.
pub open spec fn amount_operand(a: AmountSource) -> Operand {
    match a {
        AmountSource::Ciphertext { .. } => Operand::Reply(0),
        AmountSource::Handle(h) => Operand::Stored(h),
    }
}

/// Mint: `supply + amount`, then `balance + amount`.
pub open spec fn mint_program(supply: Euint128, balance: Euint128, a: AmountSource) -> Seq<Instr> {
    amount_prefix(a) + seq![
        Instr::Add { lhs: Operand::Stored(supply), rhs: amount_operand(a) },
        Instr::Add { lhs: Operand::Stored(balance), rhs: amount_operand(a) },
    ]
}

/// Oblivious debit of `balance`: `moved = select(balance >= amount, amount,
/// 0)`, then `balance - moved`, then `other + moved` (credit) or
/// `other - moved`.
pub open spec fn debit_program(
    balance: Euint128,
    other: Euint128,
    a: AmountSource,
    credit: bool,
) -> Seq<Instr> {
    let b = amount_prefix(a).len() as usize;
    let amount = amount_operand(a);
    let moved = Operand::Reply((b + 2) as usize);
    amount_prefix(a) + seq![
        Instr::Ge { lhs: Operand::Stored(balance), rhs: amount },
        Instr::Constant { value: 0 },
        Instr::Select { cond: b, if_true: amount, if_false: Operand::Reply((b + 1) as usize) },
        Instr::Sub { lhs: Operand::Stored(balance), rhs: moved },
        if credit {
            Instr::Add { lhs: Operand::Stored(other), rhs: moved }
        } else {
            Instr::Sub { lhs: Operand::Stored(other), rhs: moved }
        },
    ]
}

/// Transfer: debit the source, credit the destination.
pub open spec fn transfer_program(source: Euint128, destination: Euint128, a: AmountSource) -> Seq<
    Instr,
> {
    debit_program(source, destination, a, true)
}

/// Burn: debit the account, and take the same value off the supply.
pub open spec fn burn_program(balance: Euint128, supply: Euint128, a: AmountSource) -> Seq<Instr> {
    debit_program(balance, supply, a, false)
}

/// Fresh encrypted zeros, one for each encrypted field to initialize.
pub open spec fn zeros_program(n: nat) -> Seq<Instr> {
    Seq::new(n, |i: int| Instr::Constant { value: 0 })
}

fn push_amount(instrs: &mut Vec<Instr>, a: AmountSource) -> (op: Operand)
    requires
        old(instrs)@.len() == 0,
    ensures
        final(instrs)@ == amount_prefix(a),
        op == amount_operand(a),
{
    match a {
        AmountSource::Ciphertext { ciphertext, input_type } => {
            instrs.push(Instr::Decode { ciphertext, input_type });
            proof {
                assert(final(instrs)@ =~= amount_prefix(
                    AmountSource::Ciphertext { ciphertext, input_type },
                ));
            }
            Operand::Reply(0)
        },
        AmountSource::Handle(h) => {
            proof {
                assert(instrs@ =~= amount_prefix(AmountSource::Handle(h)));
            }
            Operand::Stored(h)
        },
    }
}

pub(crate) fn build_mint(supply: Euint128, balance: Euint128, a: AmountSource) -> (v: Vec<Instr>)
    ensures
        v@ == mint_program(supply, balance, a),
        program_wf(v@),
{
    let ghost a0 = a;
    let mut v: Vec<Instr> = Vec::new();
    let amount = push_amount(&mut v, a);
    v.push(Instr::Add { lhs: Operand::Stored(supply), rhs: amount });
    v.push(Instr::Add { lhs: Operand::Stored(balance), rhs: amount });
    proof {
        let p = v@;
        assert(p =~= mint_program(supply, balance, a0));
        assert forall|k: int| 0 <= k < p.len() implies #[trigger] instr_wf(p[k], k, p) by {
            if k < p.len() - 2 {
                assert(p[k] is Decode);
            }
        }
    }
    v
}

pub(crate) fn build_debit(balance: Euint128, other: Euint128, a: AmountSource, credit: bool) -> (v:
    Vec<Instr>)
    ensures
        v@ == debit_program(balance, other, a, credit),
        program_wf(v@),
{
    let ghost a0 = a;
    let mut v: Vec<Instr> = Vec::new();
    let amount = push_amount(&mut v, a);
    let b = v.len();
    v.push(Instr::Ge { lhs: Operand::Stored(balance), rhs: amount });
    v.push(Instr::Constant { value: 0 });
    v.push(Instr::Select { cond: b, if_true: amount, if_false: Operand::Reply(b + 1) });
    v.push(Instr::Sub { lhs: Operand::Stored(balance), rhs: Operand::Reply(b + 2) });
    if credit {
        v.push(Instr::Add { lhs: Operand::Stored(other), rhs: Operand::Reply(b + 2) });
    } else {
        v.push(Instr::Sub { lhs: Operand::Stored(other), rhs: Operand::Reply(b + 2) });
    }
    proof {
        let p = v@;
        assert(p =~= debit_program(balance, other, a0, credit));
        assert forall|k: int| 0 <= k < p.len() implies #[trigger] instr_wf(p[k], k, p) by {
            if k < b {
                assert(p[k] is Decode);
            }
        }
    }
    v
}

pub(crate) fn build_zeros(n: usize) -> (v: Vec<Instr>)
    ensures
        v@ == zeros_program(n as nat),
        program_wf(v@),
{
    let mut v: Vec<Instr> = Vec::new();
    let mut i: usize = 0;
    while i < n
        invariant
            i <= n,
            v@ =~= zeros_program(i as nat),
        decreases n - i,
    {
        v.push(Instr::Constant { value: 0 });
        i = i + 1;
    }
    proof {
        let p = v@;
        assert forall|k: int| 0 <= k < p.len() implies #[trigger] instr_wf(p[k], k, p) by {
            assert(p[k] is Constant);
        }
    }
    v
}

} // verus!
