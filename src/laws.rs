//! Properties of the instructions taken together.
//!
//! The laws about values are stated for an engine that computes correctly
//! (see `faithful`): `val` gives the plaintext behind each number handle and
//! `truth` the one behind each flag. Addition and subtraction are taken
//! modulo 2^128.
use vstd::prelude::*;
use inco_lightning::types::{Ebool, Euint128};
use crate::types::{Address, AccountState, COption, IncoAccount, IncoMint, coption_of};
use crate::error::CustomError;
use crate::engine::{
    Instr,
    Reply,
    Session,
    faithful,
    handle_of,
    reply_faithful,
    wrapping_add,
    wrapping_sub,
};
use crate::programs::{
    AmountSource,
    amount_operand,
    amount_prefix,
    burn_program,
    debit_program,
    mint_program,
};
use crate::validate::active_error;
use crate::token::{
    approve_error,
    burn_error,
    freeze_error,
    mint_to_error,
    set_freeze_authority_error,
    set_mint_authority_error,
    thaw_error,
    transfer_error,
    transfer_plan,
    transferred,
};
use crate::token_2022::{approve_checked_error, burn_checked_error, transfer_checked_error};

verus! {

/// A transfer from an account to itself makes no engine call at all, and
/// finishing it leaves the account as it was. When the account is active,
/// the transfer succeeds.
pub proof fn self_transfer_calls_nothing(
    key: Address,
    account: IncoAccount,
    authority: Address,
    a: AmountSource,
    session: Session,
)
    requires
        session.program() == transfer_plan(key, account, key, account, a),
    ensures
        transfer_plan(key, account, key, account, a) == Seq::<Instr>::empty(),
        active_error(account) is None ==> transfer_error(key, account, key, account, authority) is None,
        transferred(session, account, 2) == account,
        transferred(session, account, 1) == account,
{
}

/// The replies of the debit program that matter: the amount, the selected
/// value, and the two new balances.
proof fn debit_values(
    balance: Euint128,
    other: Euint128,
    a: AmountSource,
    credit: bool,
    replies: Seq<Reply>,
    val: spec_fn(Euint128) -> u128,
    truth: spec_fn(Ebool) -> bool,
)
    requires
        replies.len() == debit_program(balance, other, a, credit).len(),
        faithful(debit_program(balance, other, a, credit), replies, val, truth),
    ensures
        ({
            let p = debit_program(balance, other, a, credit);
            let amount = val(handle_of(amount_operand(a), replies));
            let moved = if val(balance) >= amount {
                amount
            } else {
                0
            };
            &&& val(replies[p.len() - 2]->Number_0) == wrapping_sub(val(balance), moved)
            &&& val(replies[p.len() - 1]->Number_0) == if credit {
                wrapping_add(val(other), moved)
            } else {
                wrapping_sub(val(other), moved)
            }
        }),
{
    let p = debit_program(balance, other, a, credit);
    let b = amount_prefix(a).len() as int;
    assert(reply_faithful(p[b], replies, replies[b], val, truth));
    assert(reply_faithful(p[b + 1], replies, replies[b + 1], val, truth));
    assert(reply_faithful(p[b + 2], replies, replies[b + 2], val, truth));
    assert(reply_faithful(p[b + 3], replies, replies[b + 3], val, truth));
    assert(reply_faithful(p[b + 4], replies, replies[b + 4], val, truth));
}

/// A transfer between two accounts moves the whole amount when the source
/// balance covers it, and nothing otherwise. Either way both balances are
/// written anew and no other field changes.
pub proof fn transfer_moves_amount_or_nothing(
    source_key: Address,
    source: IncoAccount,
    destination_key: Address,
    destination: IncoAccount,
    a: AmountSource,
    session: Session,
    val: spec_fn(Euint128) -> u128,
    truth: spec_fn(Ebool) -> bool,
)
    requires
        source_key != destination_key,
        session.program() == transfer_plan(source_key, source, destination_key, destination, a),
        session.complete(),
        faithful(session.program(), session.replies(), val, truth),
    ensures
        ({
            let amount = val(handle_of(amount_operand(a), session.replies()));
            let new_source = transferred(session, source, 2);
            let new_destination = transferred(session, destination, 1);
            &&& new_source == (IncoAccount { amount: session.output(2), ..source })
            &&& new_destination == (IncoAccount { amount: session.output(1), ..destination })
            &&& val(source.amount) >= amount ==> val(new_source.amount) == val(source.amount)
                - amount && val(new_destination.amount) == wrapping_add(
                val(destination.amount),
                amount,
            )
            &&& val(source.amount) < amount ==> val(new_source.amount) == val(source.amount)
                && val(new_destination.amount) == val(destination.amount)
        }),
{
    debit_values(
        source.amount,
        destination.amount,
        a,
        true,
        session.replies(),
        val,
        truth,
    );
}

/// Minting an amount and then burning the same amount from an account whose
/// balance covers it brings the supply back to where it was. `minting` runs
/// the mint's program on `mint`; `burning` runs the burn's program on the
/// supply that the mint wrote.
pub proof fn mint_then_burn_restores_supply(
    mint: IncoMint,
    account: IncoAccount,
    minted: AmountSource,
    minting: Session,
    account_at_burn: IncoAccount,
    burned: AmountSource,
    burning: Session,
    val: spec_fn(Euint128) -> u128,
    truth: spec_fn(Ebool) -> bool,
)
    requires
        minting.program() == mint_program(mint.supply, account.amount, minted),
        minting.complete(),
        faithful(minting.program(), minting.replies(), val, truth),
        burning.program() == burn_program(account_at_burn.amount, minting.output(2), burned),
        burning.complete(),
        faithful(burning.program(), burning.replies(), val, truth),
        val(handle_of(amount_operand(burned), burning.replies())) == val(
            handle_of(amount_operand(minted), minting.replies()),
        ),
        val(account_at_burn.amount) >= val(handle_of(amount_operand(minted), minting.replies())),
    ensures
        val(burning.output(1)) == val(mint.supply),
{
    let mp = minting.program();
    let replies = minting.replies();
    let b = amount_prefix(minted).len() as int;
    assert(reply_faithful(mp[b], replies, replies[b], val, truth));
    debit_values(
        account_at_burn.amount,
        minting.output(2),
        burned,
        false,
        burning.replies(),
        val,
        truth,
    );
}

/// Freezing and then thawing an account gives back the account as it was,
/// and the thaw is accepted whenever the freeze was.
pub proof fn freeze_then_thaw_restores(
    account: IncoAccount,
    mint_key: Address,
    mint: IncoMint,
    freeze_authority: Address,
)
    requires
        freeze_error(account, mint_key, mint, freeze_authority) is None,
    ensures
        ({
            let frozen = IncoAccount { state: AccountState::Frozen, ..account };
            &&& thaw_error(frozen, mint_key, mint, freeze_authority) is None
            &&& (IncoAccount { state: AccountState::Initialized, ..frozen }) == account
        }),
{
}

/// A frozen account can neither send, receive, burn nor approve: each is
/// refused with `AccountFrozen` (and a refused instruction changes nothing).
pub proof fn frozen_account_refuses_spending(
    frozen: IncoAccount,
    frozen_key: Address,
    other: IncoAccount,
    other_key: Address,
    mint_key: Address,
    mint: IncoMint,
    caller: Address,
    decimals: u8,
)
    requires
        frozen.state == AccountState::Frozen,
        other.state != AccountState::Uninitialized,
    ensures
        transfer_error(frozen_key, frozen, other_key, other, caller) == Some(
            CustomError::AccountFrozen,
        ),
        transfer_error(other_key, other, frozen_key, frozen, caller) == Some(
            CustomError::AccountFrozen,
        ),
        mint.is_initialized ==> transfer_checked_error(
            frozen_key,
            frozen,
            mint_key,
            mint,
            other_key,
            other,
            caller,
            decimals,
        ) == Some(CustomError::AccountFrozen),
        mint.is_initialized ==> transfer_checked_error(
            other_key,
            other,
            mint_key,
            mint,
            frozen_key,
            frozen,
            caller,
            decimals,
        ) == Some(CustomError::AccountFrozen),
        burn_error(frozen, mint_key, mint, caller) == Some(CustomError::AccountFrozen),
        burn_checked_error(frozen, mint_key, mint, caller, decimals) == Some(
            CustomError::AccountFrozen,
        ),
        approve_error(frozen, caller) == Some(CustomError::AccountFrozen),
        approve_checked_error(frozen, mint_key, mint, caller, decimals) == Some(
            CustomError::AccountFrozen,
        ),
{
}

/// Once the mint authority is rotated to none, minting and rotating it again
/// are refused with `FixedSupply`, whoever calls.
pub proof fn removed_mint_authority_stays_removed(
    mint: IncoMint,
    current: Address,
    mint_key: Address,
    account: IncoAccount,
    caller: Address,
)
    requires
        set_mint_authority_error(mint, current) is None,
        account.state == AccountState::Initialized,
        account.mint == mint_key,
    ensures
        ({
            let rotated = IncoMint { mint_authority: coption_of(Option::<Address>::None), ..mint };
            &&& rotated.mint_authority == COption::<Address>::Absent
            &&& set_mint_authority_error(rotated, caller) == Some(CustomError::FixedSupply)
            &&& mint_to_error(mint_key, rotated, account, caller) == Some(CustomError::FixedSupply)
        }),
{
}

/// Once the freeze authority is rotated to none, freezing, thawing and
/// rotating it again are refused with `MintCannotFreeze`, whoever calls.
pub proof fn removed_freeze_authority_stays_removed(
    mint: IncoMint,
    current: Address,
    mint_key: Address,
    account: IncoAccount,
    caller: Address,
)
    requires
        set_freeze_authority_error(mint, current) is None,
        account.mint == mint_key,
    ensures
        ({
            let rotated = IncoMint {
                freeze_authority: coption_of(Option::<Address>::None),
                ..mint
            };
            &&& rotated.freeze_authority == COption::<Address>::Absent
            &&& set_freeze_authority_error(rotated, caller) == Some(CustomError::MintCannotFreeze)
            &&& account.state == AccountState::Initialized ==> freeze_error(
                account,
                mint_key,
                rotated,
                caller,
            ) == Some(CustomError::MintCannotFreeze)
            &&& account.state == AccountState::Frozen ==> thaw_error(
                account,
                mint_key,
                rotated,
                caller,
            ) == Some(CustomError::MintCannotFreeze)
        }),
{
}

} // verus!
