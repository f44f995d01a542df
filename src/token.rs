//! The ledger's instructions.
//!
//! An instruction that touches encrypted values is split in two. The first
//! function validates the records, applies the plaintext changes, and returns
//! a `Session` holding the engine calls to make; on error it changes nothing
//! and calls nothing. Once the session has every reply, the matching
//! `finish_` function writes the results into the records. The records are
//! to be persisted only after that step, all together.
use vstd::prelude::*;
use inco_lightning::types::Euint128;
use crate::types::{Address, AccountState, COption, IncoAccount, IncoMint, coption_of, to_coption};
use crate::error::CustomError;
use crate::engine::{Instr, OpKind, Session, starts};
use crate::programs::{
    AmountSource,
    amount_prefix,
    build_debit,
    build_mint,
    build_zeros,
    burn_program,
    mint_program,
    transfer_program,
    zeros_program,
};
use crate::validate::{
    active_error,
    authority_error,
    is_owner_or_close_authority,
    is_owner_or_delegate,
    require_active,
    require_authority,
    require_initialized_account,
    require_initialized_mint,
    require_linked,
    require_owner,
    require_owner_or_close_authority,
    require_owner_or_delegate,
    require_state,
};

verus! {

// ---------- transfer ----------

pub open spec fn transfer_error(
    source_key: Address,
    source: IncoAccount,
    destination_key: Address,
    destination: IncoAccount,
    authority: Address,
) -> Option<CustomError> {
    if active_error(source) is Some {
        active_error(source)
    } else if active_error(destination) is Some {
        active_error(destination)
    } else if source.mint != destination.mint {
        Some(CustomError::MintMismatch)
    } else if source_key == destination_key {
        None
    } else if !is_owner_or_delegate(source, authority) {
        Some(CustomError::OwnerMismatch)
    } else {
        None
    }
}

/// A transfer to the sending account itself calls nothing.
pub open spec fn transfer_plan(
    source_key: Address,
    source: IncoAccount,
    destination_key: Address,
    destination: IncoAccount,
    a: AmountSource,
) -> Seq<Instr> {
    if source_key == destination_key {
        seq![]
    } else {
        transfer_program(source.amount, destination.amount, a)
    }
}

/// Starts a transfer session once the common checks have passed.
pub(crate) fn start_transfer(
    source_key: &Address,
    source: &IncoAccount,
    destination_key: &Address,
    destination: &IncoAccount,
    authority: &Address,
    a: AmountSource,
) -> (r: Result<Session, CustomError>)
    requires
        active_error(*source) is None,
        active_error(*destination) is None,
    ensures
        starts(
            r,
            if *source_key == *destination_key || is_owner_or_delegate(*source, *authority) {
                None
            } else {
                Some(CustomError::OwnerMismatch)
            },
            OpKind::Transfer,
            transfer_plan(*source_key, *source, *destination_key, *destination, a),
        ),
{
    if *source_key == *destination_key {
        return Ok(Session::start(OpKind::Transfer, Vec::new()));
    }
    if let Err(e) = require_owner_or_delegate(source, authority) {
        return Err(e);
    }
    let instrs = build_debit(source.amount, destination.amount, a, true);
    proof {
        let p = instrs@;
        assert(!(p[p.len() - 1] is Ge) && !(p[p.len() - 2] is Ge));
    }
    Ok(Session::start(OpKind::Transfer, instrs))
}

fn transfer_amount(
    source_key: &Address,
    source: &IncoAccount,
    destination_key: &Address,
    destination: &IncoAccount,
    authority: &Address,
    a: AmountSource,
) -> (r: Result<Session, CustomError>)
    ensures
        starts(
            r,
            transfer_error(*source_key, *source, *destination_key, *destination, *authority),
            OpKind::Transfer,
            transfer_plan(*source_key, *source, *destination_key, *destination, a),
        ),
{
    if let Err(e) = require_active(source) {
        return Err(e);
    }
    if let Err(e) = require_active(destination) {
        return Err(e);
    }
    if !(source.mint == destination.mint) {
        return Err(CustomError::MintMismatch);
    }
    start_transfer(source_key, source, destination_key, destination, authority, a)
}

/// Moves an amount given as ciphertext from `source` to `destination`,
/// called by the source's owner or delegate. Whether the balance suffices is
/// never known here: the session moves the amount if it does and zero if
/// not, by the same calls either way, and reports no error on shortfall.
pub fn transfer(
    source_key: &Address,
    source: &IncoAccount,
    destination_key: &Address,
    destination: &IncoAccount,
    authority: &Address,
    ciphertext: Vec<u8>,
    input_type: u8,
) -> (r: Result<Session, CustomError>)
    ensures
        starts(
            r,
            transfer_error(*source_key, *source, *destination_key, *destination, *authority),
            OpKind::Transfer,
            transfer_plan(
                *source_key,
                *source,
                *destination_key,
                *destination,
                AmountSource::Ciphertext { ciphertext, input_type },
            ),
        ),
{
    transfer_amount(
        source_key,
        source,
        destination_key,
        destination,
        authority,
        AmountSource::Ciphertext { ciphertext, input_type },
    )
}

/// As `transfer`, with the amount given as a handle.
pub fn transfer_with_handle(
    source_key: &Address,
    source: &IncoAccount,
    destination_key: &Address,
    destination: &IncoAccount,
    authority: &Address,
    amount_handle: Euint128,
) -> (r: Result<Session, CustomError>)
    ensures
        starts(
            r,
            transfer_error(*source_key, *source, *destination_key, *destination, *authority),
            OpKind::Transfer,
            transfer_plan(
                *source_key,
                *source,
                *destination_key,
                *destination,
                AmountSource::Handle(amount_handle),
            ),
        ),
{
    transfer_amount(
        source_key,
        source,
        destination_key,
        destination,
        authority,
        AmountSource::Handle(amount_handle),
    )
}

/// An account after a transfer session: its balance becomes the reply
/// `back` places from the end, unless the session was empty.
pub open spec fn transferred(session: Session, account: IncoAccount, back: int) -> IncoAccount {
    if session.program().len() == 0 {
        account
    } else {
        IncoAccount { amount: session.output(back), ..account }
    }
}

/// Writes a completed transfer session into the two accounts: the source's
/// new balance is the next-to-last reply, the destination's the last. An
/// empty session (a transfer to the sending account) changes nothing.
pub fn finish_transfer(session: &Session, source: &mut IncoAccount, destination: &mut IncoAccount)
    requires
        session.kind_spec() == OpKind::Transfer,
        session.complete(),
    ensures
        *final(source) == transferred(*session, *old(source), 2),
        *final(destination) == transferred(*session, *old(destination), 1),
{
    if session.len() == 0 {
        return;
    }
    source.amount = session.output_at(2);
    destination.amount = session.output_at(1);
}

// ---------- mint ----------

pub open spec fn mint_to_error(
    mint_key: Address,
    mint: IncoMint,
    account: IncoAccount,
    authority: Address,
) -> Option<CustomError> {
    if !mint.is_initialized {
        Some(CustomError::UninitializedState)
    } else if account.state != AccountState::Initialized {
        Some(CustomError::UninitializedState)
    } else if account.mint != mint_key {
        Some(CustomError::MintMismatch)
    } else {
        authority_error(mint.mint_authority, authority, CustomError::FixedSupply)
    }
}

/// Starts a mint session once the mint authority has been checked.
pub(crate) fn start_mint(mint: &IncoMint, account: &IncoAccount, a: AmountSource) -> (s: Session)
    ensures
        s.kind_spec() == OpKind::MintTo,
        s.program() == mint_program(mint.supply, account.amount, a),
        s.replies().len() == 0,
{
    let instrs = build_mint(mint.supply, account.amount, a);
    proof {
        let p = instrs@;
        assert(!(p[p.len() - 1] is Ge) && !(p[p.len() - 2] is Ge));
    }
    Session::start(OpKind::MintTo, instrs)
}

fn mint_amount(
    mint_key: &Address,
    mint: &IncoMint,
    account: &IncoAccount,
    authority: &Address,
    a: AmountSource,
) -> (r: Result<Session, CustomError>)
    ensures
        starts(
            r,
            mint_to_error(*mint_key, *mint, *account, *authority),
            OpKind::MintTo,
            mint_program(mint.supply, account.amount, a),
        ),
{
    if let Err(e) = require_initialized_mint(mint) {
        return Err(e);
    }
    if let Err(e) = require_state(account, AccountState::Initialized, CustomError::UninitializedState) {
        return Err(e);
    }
    if let Err(e) = require_linked(account, mint_key) {
        return Err(e);
    }
    if let Err(e) = require_authority(&mint.mint_authority, authority, CustomError::FixedSupply) {
        return Err(e);
    }
    Ok(start_mint(mint, account, a))
}

/// Mints an amount given as ciphertext into `account`, called by the mint
/// authority: the session adds it to the supply and to the balance. Overflow
/// is whatever the engine's addition does.
pub fn mint_to(
    mint_key: &Address,
    mint: &IncoMint,
    account: &IncoAccount,
    authority: &Address,
    ciphertext: Vec<u8>,
    input_type: u8,
) -> (r: Result<Session, CustomError>)
    ensures
        starts(
            r,
            mint_to_error(*mint_key, *mint, *account, *authority),
            OpKind::MintTo,
            mint_program(
                mint.supply,
                account.amount,
                AmountSource::Ciphertext { ciphertext, input_type },
            ),
        ),
{
    mint_amount(
        mint_key,
        mint,
        account,
        authority,
        AmountSource::Ciphertext { ciphertext, input_type },
    )
}

/// As `mint_to`, with the amount given as a handle.
pub fn mint_to_with_handle(
    mint_key: &Address,
    mint: &IncoMint,
    account: &IncoAccount,
    authority: &Address,
    amount_handle: Euint128,
) -> (r: Result<Session, CustomError>)
    ensures
        starts(
            r,
            mint_to_error(*mint_key, *mint, *account, *authority),
            OpKind::MintTo,
            mint_program(mint.supply, account.amount, AmountSource::Handle(amount_handle)),
        ),
{
    mint_amount(mint_key, mint, account, authority, AmountSource::Handle(amount_handle))
}

/// Writes a completed mint session: the supply is the next-to-last reply,
/// the balance the last.
pub fn finish_mint_to(session: &Session, mint: &mut IncoMint, account: &mut IncoAccount)
    requires
        session.kind_spec() == OpKind::MintTo,
        session.complete(),
    ensures
        *final(mint) == (IncoMint { supply: session.output(2), ..*old(mint) }),
        *final(account) == (IncoAccount { amount: session.output(1), ..*old(account) }),
{
    mint.supply = session.output_at(2);
    account.amount = session.output_at(1);
}

// ---------- burn ----------

pub open spec fn burn_error(
    account: IncoAccount,
    mint_key: Address,
    mint: IncoMint,
    authority: Address,
) -> Option<CustomError> {
    if active_error(account) is Some {
        active_error(account)
    } else if !mint.is_initialized {
        Some(CustomError::UninitializedState)
    } else if account.mint != mint_key {
        Some(CustomError::MintMismatch)
    } else if !is_owner_or_delegate(account, authority) {
        Some(CustomError::OwnerMismatch)
    } else {
        None
    }
}

/// Starts a burn session once the owner or delegate has been checked.
pub(crate) fn start_burn(account: &IncoAccount, mint: &IncoMint, a: AmountSource) -> (s: Session)
    ensures
        s.kind_spec() == OpKind::Burn,
        s.program() == burn_program(account.amount, mint.supply, a),
        s.replies().len() == 0,
{
    let instrs = build_debit(account.amount, mint.supply, a, false);
    proof {
        let p = instrs@;
        assert(!(p[p.len() - 1] is Ge) && !(p[p.len() - 2] is Ge));
    }
    Session::start(OpKind::Burn, instrs)
}

/// Burns an amount given as ciphertext from `account`, called by its owner
/// or delegate. As with a transfer, the session takes the amount off the
/// balance and the supply if the balance covers it, and zero if not.
pub fn burn(
    account: &IncoAccount,
    mint_key: &Address,
    mint: &IncoMint,
    authority: &Address,
    ciphertext: Vec<u8>,
    input_type: u8,
) -> (r: Result<Session, CustomError>)
    ensures
        starts(
            r,
            burn_error(*account, *mint_key, *mint, *authority),
            OpKind::Burn,
            burn_program(
                account.amount,
                mint.supply,
                AmountSource::Ciphertext { ciphertext, input_type },
            ),
        ),
{
    if let Err(e) = require_active(account) {
        return Err(e);
    }
    if let Err(e) = require_initialized_mint(mint) {
        return Err(e);
    }
    if let Err(e) = require_linked(account, mint_key) {
        return Err(e);
    }
    if let Err(e) = require_owner_or_delegate(account, authority) {
        return Err(e);
    }
    Ok(start_burn(account, mint, AmountSource::Ciphertext { ciphertext, input_type }))
}

/// Writes a completed burn session: the balance is the next-to-last reply,
/// the supply the last.
pub fn finish_burn(session: &Session, account: &mut IncoAccount, mint: &mut IncoMint)
    requires
        session.kind_spec() == OpKind::Burn,
        session.complete(),
    ensures
        *final(account) == (IncoAccount { amount: session.output(2), ..*old(account) }),
        *final(mint) == (IncoMint { supply: session.output(1), ..*old(mint) }),
{
    account.amount = session.output_at(2);
    mint.supply = session.output_at(1);
}

// ---------- initialization ----------

/// Initializes `mint`: its authorities and decimals are set now, its supply
/// (an encrypted zero) by `finish_initialize_mint`.
pub fn initialize_mint(
    mint: &mut IncoMint,
    decimals: u8,
    mint_authority: Address,
    freeze_authority: Option<Address>,
) -> (r: Result<Session, CustomError>)
    ensures
        starts(
            r,
            if old(mint).is_initialized {
                Some(CustomError::AlreadyInUse)
            } else {
                None
            },
            OpKind::InitializeMint,
            zeros_program(1),
        ),
        *final(mint) == (if old(mint).is_initialized {
            *old(mint)
        } else {
            IncoMint {
                mint_authority: COption::Present(mint_authority),
                supply: old(mint).supply,
                decimals,
                is_initialized: true,
                freeze_authority: coption_of(freeze_authority),
            }
        }),
{
    if mint.is_initialized {
        return Err(CustomError::AlreadyInUse);
    }
    mint.mint_authority = COption::Present(mint_authority);
    mint.decimals = decimals;
    mint.is_initialized = true;
    mint.freeze_authority = to_coption(freeze_authority);
    let instrs = build_zeros(1);
    Ok(Session::start(OpKind::InitializeMint, instrs))
}

/// Writes the supply of a newly initialized mint.
pub fn finish_initialize_mint(session: &Session, mint: &mut IncoMint)
    requires
        session.kind_spec() == OpKind::InitializeMint,
        session.complete(),
    ensures
        *final(mint) == (IncoMint { supply: session.output(1), ..*old(mint) }),
{
    mint.supply = session.output_at(1);
}

pub open spec fn initialize_account_error(account: IncoAccount, mint: IncoMint) -> Option<
    CustomError,
> {
    if !mint.is_initialized {
        Some(CustomError::UninitializedState)
    } else if account.state != AccountState::Uninitialized {
        Some(CustomError::AlreadyInUse)
    } else {
        None
    }
}

/// An account just initialized for `owner` in the mint `mint_key`; its two
/// encrypted fields are still to be written.
pub open spec fn initialized_account(
    account: IncoAccount,
    mint_key: Address,
    owner: Address,
) -> IncoAccount {
    IncoAccount {
        mint: mint_key,
        owner,
        amount: account.amount,
        delegate: COption::Absent,
        state: AccountState::Initialized,
        is_native: COption::Absent,
        delegated_amount: account.delegated_amount,
        close_authority: COption::Absent,
    }
}

/// Initializes `account` for `owner` in the mint `mint_key`. Its balance and
/// delegated amount become two independent encrypted zeros, written by
/// `finish_initialize_account`.
pub fn initialize_account(
    account: &mut IncoAccount,
    mint_key: &Address,
    mint: &IncoMint,
    owner: &Address,
) -> (r: Result<Session, CustomError>)
    ensures
        starts(
            r,
            initialize_account_error(*old(account), *mint),
            OpKind::InitializeAccount,
            zeros_program(2),
        ),
        *final(account) == (if initialize_account_error(*old(account), *mint) is Some {
            *old(account)
        } else {
            initialized_account(*old(account), *mint_key, *owner)
        }),
{
    if let Err(e) = require_initialized_mint(mint) {
        return Err(e);
    }
    if let Err(e) = require_state(account, AccountState::Uninitialized, CustomError::AlreadyInUse) {
        return Err(e);
    }
    account.mint = *mint_key;
    account.owner = *owner;
    account.delegate = COption::Absent;
    account.state = AccountState::Initialized;
    account.is_native = COption::Absent;
    account.close_authority = COption::Absent;
    let instrs = build_zeros(2);
    Ok(Session::start(OpKind::InitializeAccount, instrs))
}

/// Writes the encrypted zeros of a newly initialized account: the balance is
/// the first reply, the delegated amount the second.
pub fn finish_initialize_account(session: &Session, account: &mut IncoAccount)
    requires
        session.kind_spec() == OpKind::InitializeAccount,
        session.complete(),
    ensures
        *final(account) == (IncoAccount {
            amount: session.output(2),
            delegated_amount: session.output(1),
            ..*old(account)
        }),
{
    account.amount = session.output_at(2);
    account.delegated_amount = session.output_at(1);
}

// ---------- delegation ----------

pub open spec fn approve_error(source: IncoAccount, owner: Address) -> Option<CustomError> {
    if active_error(source) is Some {
        active_error(source)
    } else if source.owner != owner {
        Some(CustomError::OwnerMismatch)
    } else {
        None
    }
}

/// Makes `delegate` the account's delegate, called by its owner. The amount
/// granted replaces any earlier grant; it is decoded by the session and
/// written by `finish_delegation`.
pub fn approve(
    source: &mut IncoAccount,
    delegate: &Address,
    owner: &Address,
    ciphertext: Vec<u8>,
    input_type: u8,
) -> (r: Result<Session, CustomError>)
    ensures
        starts(
            r,
            approve_error(*old(source), *owner),
            OpKind::Approve,
            amount_prefix(AmountSource::Ciphertext { ciphertext, input_type }),
        ),
        *final(source) == (if approve_error(*old(source), *owner) is Some {
            *old(source)
        } else {
            IncoAccount { delegate: COption::Present(*delegate), ..*old(source) }
        }),
{
    if let Err(e) = require_active(source) {
        return Err(e);
    }
    if let Err(e) = require_owner(source, owner) {
        return Err(e);
    }
    source.delegate = COption::Present(*delegate);
    Ok(start_approve(AmountSource::Ciphertext { ciphertext, input_type }))
}

pub(crate) fn start_approve(a: AmountSource) -> (s: Session)
    requires
        a is Ciphertext,
    ensures
        s.kind_spec() == OpKind::Approve,
        s.program() == amount_prefix(a),
        s.replies().len() == 0,
{
    let mut instrs: Vec<Instr> = Vec::new();
    match a {
        AmountSource::Ciphertext { ciphertext, input_type } => {
            instrs.push(Instr::Decode { ciphertext, input_type });
            proof {
                assert(instrs@ =~= amount_prefix(
                    AmountSource::Ciphertext { ciphertext, input_type },
                ));
            }
        },
        AmountSource::Handle(_) => {},
    }
    proof {
        assert(instrs@[0] is Decode);
    }
    Session::start(OpKind::Approve, instrs)
}

pub open spec fn revoke_error(source: IncoAccount, owner: Address) -> Option<CustomError> {
    if source.state != AccountState::Initialized {
        Some(CustomError::UninitializedState)
    } else if source.owner != owner {
        Some(CustomError::OwnerMismatch)
    } else {
        None
    }
}

/// Removes the delegate, called by the owner (a delegate cannot revoke
/// itself). The delegated amount becomes an encrypted zero, written by
/// `finish_delegation`.
pub fn revoke(source: &mut IncoAccount, owner: &Address) -> (r: Result<Session, CustomError>)
    ensures
        starts(r, revoke_error(*old(source), *owner), OpKind::Revoke, zeros_program(1)),
        *final(source) == (if revoke_error(*old(source), *owner) is Some {
            *old(source)
        } else {
            IncoAccount { delegate: COption::Absent, ..*old(source) }
        }),
{
    if let Err(e) = require_state(source, AccountState::Initialized, CustomError::UninitializedState) {
        return Err(e);
    }
    if let Err(e) = require_owner(source, owner) {
        return Err(e);
    }
    source.delegate = COption::Absent;
    let instrs = build_zeros(1);
    Ok(Session::start(OpKind::Revoke, instrs))
}

/// Writes the delegated amount after `approve` or `revoke`: the session's
/// one reply.
pub fn finish_delegation(session: &Session, source: &mut IncoAccount)
    requires
        session.kind_spec() == OpKind::Approve || session.kind_spec() == OpKind::Revoke,
        session.complete(),
    ensures
        *final(source) == (IncoAccount { delegated_amount: session.output(1), ..*old(source) }),
{
    source.delegated_amount = session.output_at(1);
}

// ---------- freeze and thaw ----------

/// The checks shared by freeze and thaw, after the account's state.
pub open spec fn freeze_authority_error(
    account: IncoAccount,
    mint_key: Address,
    mint: IncoMint,
    freeze_authority: Address,
) -> Option<CustomError> {
    if !mint.is_initialized {
        Some(CustomError::UninitializedState)
    } else if account.mint != mint_key {
        Some(CustomError::MintMismatch)
    } else {
        authority_error(mint.freeze_authority, freeze_authority, CustomError::MintCannotFreeze)
    }
}

pub open spec fn freeze_error(
    account: IncoAccount,
    mint_key: Address,
    mint: IncoMint,
    freeze_authority: Address,
) -> Option<CustomError> {
    if account.state != AccountState::Initialized {
        Some(CustomError::UninitializedState)
    } else {
        freeze_authority_error(account, mint_key, mint, freeze_authority)
    }
}

pub open spec fn thaw_error(
    account: IncoAccount,
    mint_key: Address,
    mint: IncoMint,
    freeze_authority: Address,
) -> Option<CustomError> {
    if account.state != AccountState::Frozen {
        Some(CustomError::InvalidState)
    } else {
        freeze_authority_error(account, mint_key, mint, freeze_authority)
    }
}

fn require_freeze_authority(
    account: &IncoAccount,
    mint_key: &Address,
    mint: &IncoMint,
    freeze_authority: &Address,
) -> (r: Result<(), CustomError>)
    ensures
        r == crate::validate::result_of(
            freeze_authority_error(*account, *mint_key, *mint, *freeze_authority),
        ),
{
    if let Err(e) = require_initialized_mint(mint) {
        return Err(e);
    }
    if let Err(e) = require_linked(account, mint_key) {
        return Err(e);
    }
    require_authority(&mint.freeze_authority, freeze_authority, CustomError::MintCannotFreeze)
}

/// Freezes an initialized account, called by the mint's freeze authority.
pub fn freeze_account(
    account: &mut IncoAccount,
    mint_key: &Address,
    mint: &IncoMint,
    freeze_authority: &Address,
) -> (r: Result<(), CustomError>)
    ensures
        r == crate::validate::result_of(
            freeze_error(*old(account), *mint_key, *mint, *freeze_authority),
        ),
        *final(account) == (if r is Err {
            *old(account)
        } else {
            IncoAccount { state: AccountState::Frozen, ..*old(account) }
        }),
{
    if let Err(e) = require_state(account, AccountState::Initialized, CustomError::UninitializedState) {
        return Err(e);
    }
    if let Err(e) = require_freeze_authority(account, mint_key, mint, freeze_authority) {
        return Err(e);
    }
    account.state = AccountState::Frozen;
    Ok(())
}

/// Thaws a frozen account, called by the mint's freeze authority.
pub fn thaw_account(
    account: &mut IncoAccount,
    mint_key: &Address,
    mint: &IncoMint,
    freeze_authority: &Address,
) -> (r: Result<(), CustomError>)
    ensures
        r == crate::validate::result_of(
            thaw_error(*old(account), *mint_key, *mint, *freeze_authority),
        ),
        *final(account) == (if r is Err {
            *old(account)
        } else {
            IncoAccount { state: AccountState::Initialized, ..*old(account) }
        }),
{
    if let Err(e) = require_state(account, AccountState::Frozen, CustomError::InvalidState) {
        return Err(e);
    }
    if let Err(e) = require_freeze_authority(account, mint_key, mint, freeze_authority) {
        return Err(e);
    }
    account.state = AccountState::Initialized;
    Ok(())
}

// ---------- close ----------

pub open spec fn close_account_error(
    account: IncoAccount,
    authority: Address,
    account_lamports: u64,
    destination_lamports: u64,
) -> Option<CustomError> {
    if account.state == AccountState::Uninitialized {
        Some(CustomError::UninitializedState)
    } else if !is_owner_or_close_authority(account, authority) {
        Some(CustomError::OwnerMismatch)
    } else if destination_lamports + account_lamports > u64::MAX {
        Some(CustomError::Overflow)
    } else {
        None
    }
}

/// Closes an initialized (possibly frozen) account, called by its owner or close authority:
/// the account's reserve (`account_lamports`) moves to the destination, and
/// the caller then releases the record. The encrypted balance is not checked
/// to be zero: that is the caller's to verify, off the ledger, beforehand.
pub fn close_account(
    account: &IncoAccount,
    authority: &Address,
    account_lamports: &mut u64,
    destination_lamports: &mut u64,
) -> (r: Result<(), CustomError>)
    ensures
        r == crate::validate::result_of(
            close_account_error(*account, *authority, *old(account_lamports), *old(destination_lamports)),
        ),
        r is Err ==> *final(account_lamports) == *old(account_lamports) && *final(destination_lamports)
            == *old(destination_lamports),
        r is Ok ==> *final(account_lamports) == 0 && *final(destination_lamports) == *old(
            destination_lamports,
        ) + *old(account_lamports),
{
    if let Err(e) = require_initialized_account(account) {
        return Err(e);
    }
    if let Err(e) = require_owner_or_close_authority(account, authority) {
        return Err(e);
    }
    match destination_lamports.checked_add(*account_lamports) {
        Some(total) => {
            *destination_lamports = total;
            *account_lamports = 0;
            Ok(())
        },
        None => Err(CustomError::Overflow),
    }
}

// ---------- authority rotation ----------

pub open spec fn set_mint_authority_error(mint: IncoMint, current_authority: Address) -> Option<
    CustomError,
> {
    if !mint.is_initialized {
        Some(CustomError::UninitializedState)
    } else {
        authority_error(mint.mint_authority, current_authority, CustomError::FixedSupply)
    }
}

/// Replaces the mint authority, called by the current one. `None` fixes the
/// supply for good.
pub fn set_mint_authority(
    mint: &mut IncoMint,
    current_authority: &Address,
    new_authority: Option<Address>,
) -> (r: Result<(), CustomError>)
    ensures
        r == crate::validate::result_of(set_mint_authority_error(*old(mint), *current_authority)),
        *final(mint) == (if r is Err {
            *old(mint)
        } else {
            IncoMint { mint_authority: coption_of(new_authority), ..*old(mint) }
        }),
{
    if let Err(e) = require_initialized_mint(mint) {
        return Err(e);
    }
    if let Err(e) = require_authority(&mint.mint_authority, current_authority, CustomError::FixedSupply) {
        return Err(e);
    }
    mint.mint_authority = to_coption(new_authority);
    Ok(())
}

pub open spec fn set_freeze_authority_error(mint: IncoMint, current_authority: Address) -> Option<
    CustomError,
> {
    if !mint.is_initialized {
        Some(CustomError::UninitializedState)
    } else {
        authority_error(mint.freeze_authority, current_authority, CustomError::MintCannotFreeze)
    }
}

/// Replaces the freeze authority, called by the current one. `None` means
/// no account of the mint can be frozen or thawed ever again.
pub fn set_freeze_authority(
    mint: &mut IncoMint,
    current_authority: &Address,
    new_authority: Option<Address>,
) -> (r: Result<(), CustomError>)
    ensures
        r == crate::validate::result_of(set_freeze_authority_error(*old(mint), *current_authority)),
        *final(mint) == (if r is Err {
            *old(mint)
        } else {
            IncoMint { freeze_authority: coption_of(new_authority), ..*old(mint) }
        }),
{
    if let Err(e) = require_initialized_mint(mint) {
        return Err(e);
    }
    if let Err(e) = require_authority(
        &mint.freeze_authority,
        current_authority,
        CustomError::MintCannotFreeze,
    ) {
        return Err(e);
    }
    mint.freeze_authority = to_coption(new_authority);
    Ok(())
}

/// The checks of the two rotations that the owner makes on an account. They
/// do not depend on whether the account is frozen.
pub open spec fn owner_rotation_error(account: IncoAccount, owner: Address) -> Option<CustomError> {
    if account.state == AccountState::Uninitialized {
        Some(CustomError::UninitializedState)
    } else if account.owner != owner {
        Some(CustomError::OwnerMismatch)
    } else {
        None
    }
}

/// Hands the account to `new_owner`, called by the current owner.
pub fn set_account_owner(account: &mut IncoAccount, current_owner: &Address, new_owner: Address) -> (r:
    Result<(), CustomError>)
    ensures
        r == crate::validate::result_of(owner_rotation_error(*old(account), *current_owner)),
        *final(account) == (if r is Err {
            *old(account)
        } else {
            IncoAccount { owner: new_owner, ..*old(account) }
        }),
{
    if let Err(e) = require_initialized_account(account) {
        return Err(e);
    }
    if let Err(e) = require_owner(account, current_owner) {
        return Err(e);
    }
    account.owner = new_owner;
    Ok(())
}

/// Sets or removes the close authority, called by the owner.
pub fn set_close_authority(
    account: &mut IncoAccount,
    owner: &Address,
    new_authority: Option<Address>,
) -> (r: Result<(), CustomError>)
    ensures
        r == crate::validate::result_of(owner_rotation_error(*old(account), *owner)),
        *final(account) == (if r is Err {
            *old(account)
        } else {
            IncoAccount { close_authority: coption_of(new_authority), ..*old(account) }
        }),
{
    if let Err(e) = require_initialized_account(account) {
        return Err(e);
    }
    if let Err(e) = require_owner(account, owner) {
        return Err(e);
    }
    account.close_authority = to_coption(new_authority);
    Ok(())
}

} // verus!
