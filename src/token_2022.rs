//! The "checked" instructions, which also take the mint and the decimals the
//! caller believes it has, and the others of the second token interface.
use vstd::prelude::*;
use inco_lightning::types::Euint128;
use crate::types::{Address, AccountState, COption, IncoAccount, IncoMint};
use crate::error::CustomError;
use crate::engine::{OpKind, Session, starts};
use crate::programs::{AmountSource, amount_prefix, burn_program, mint_program, zeros_program};
use crate::token::{
    close_account,
    close_account_error,
    initialize_account,
    initialize_account_error,
    initialized_account,
    mint_to_error,
    revoke,
    revoke_error,
    start_approve,
    start_burn,
    start_mint,
    start_transfer,
    transfer_plan,
};
use crate::validate::{
    active_error,
    is_owner_or_delegate,
    require_active,
    require_authority,
    require_decimals,
    require_initialized_mint,
    require_linked,
    require_owner,
    require_owner_or_delegate,
    require_state,
};

verus! {

pub open spec fn transfer_checked_error(
    source_key: Address,
    source: IncoAccount,
    mint_key: Address,
    mint: IncoMint,
    destination_key: Address,
    destination: IncoAccount,
    authority: Address,
    decimals: u8,
) -> Option<CustomError> {
    if active_error(source) is Some {
        active_error(source)
    } else if !mint.is_initialized {
        Some(CustomError::UninitializedState)
    } else if active_error(destination) is Some {
        active_error(destination)
    } else if source.mint != mint_key || destination.mint != mint_key {
        Some(CustomError::MintMismatch)
    } else if mint.decimals != decimals {
        Some(CustomError::MintDecimalsMismatch)
    } else if source_key == destination_key {
        None
    } else if !is_owner_or_delegate(source, authority) {
        Some(CustomError::OwnerMismatch)
    } else {
        None
    }
}

fn transfer_checked_amount(
    source_key: &Address,
    source: &IncoAccount,
    mint_key: &Address,
    mint: &IncoMint,
    destination_key: &Address,
    destination: &IncoAccount,
    authority: &Address,
    a: AmountSource,
    decimals: u8,
) -> (r: Result<Session, CustomError>)
    ensures
        starts(
            r,
            transfer_checked_error(
                *source_key,
                *source,
                *mint_key,
                *mint,
                *destination_key,
                *destination,
                *authority,
                decimals,
            ),
            OpKind::Transfer,
            transfer_plan(*source_key, *source, *destination_key, *destination, a),
        ),
{
    if let Err(e) = require_active(source) {
        return Err(e);
    }
    if let Err(e) = require_initialized_mint(mint) {
        return Err(e);
    }
    if let Err(e) = require_active(destination) {
        return Err(e);
    }
    if let Err(e) = require_linked(source, mint_key) {
        return Err(e);
    }
    if let Err(e) = require_linked(destination, mint_key) {
        return Err(e);
    }
    if let Err(e) = require_decimals(mint, decimals) {
        return Err(e);
    }
    start_transfer(source_key, source, destination_key, destination, authority, a)
}

/// As `transfer`, where both accounts must belong to `mint` and `decimals`
/// must be the mint's.
pub fn transfer_checked(
    source_key: &Address,
    source: &IncoAccount,
    mint_key: &Address,
    mint: &IncoMint,
    destination_key: &Address,
    destination: &IncoAccount,
    authority: &Address,
    ciphertext: Vec<u8>,
    input_type: u8,
    decimals: u8,
) -> (r: Result<Session, CustomError>)
    ensures
        starts(
            r,
            transfer_checked_error(
                *source_key,
                *source,
                *mint_key,
                *mint,
                *destination_key,
                *destination,
                *authority,
                decimals,
            ),
            OpKind::Transfer,
            transfer_plan(
                *source_key,
                *source,
                *destination_key,
                *destination,
                AmountSource::Ciphertext { ciphertext, input_type },
            ),
        ),
{
    transfer_checked_amount(
        source_key,
        source,
        mint_key,
        mint,
        destination_key,
        destination,
        authority,
        AmountSource::Ciphertext { ciphertext, input_type },
        decimals,
    )
}

/// As `transfer_checked`, with the amount given as a handle.
pub fn transfer_checked_with_handle(
    source_key: &Address,
    source: &IncoAccount,
    mint_key: &Address,
    mint: &IncoMint,
    destination_key: &Address,
    destination: &IncoAccount,
    authority: &Address,
    amount_handle: Euint128,
    decimals: u8,
) -> (r: Result<Session, CustomError>)
    ensures
        starts(
            r,
            transfer_checked_error(
                *source_key,
                *source,
                *mint_key,
                *mint,
                *destination_key,
                *destination,
                *authority,
                decimals,
            ),
            OpKind::Transfer,
            transfer_plan(
                *source_key,
                *source,
                *destination_key,
                *destination,
                AmountSource::Handle(amount_handle),
            ),
        ),
{
    transfer_checked_amount(
        source_key,
        source,
        mint_key,
        mint,
        destination_key,
        destination,
        authority,
        AmountSource::Handle(amount_handle),
        decimals,
    )
}

pub open spec fn mint_to_checked_error(
    mint_key: Address,
    mint: IncoMint,
    account: IncoAccount,
    authority: Address,
    decimals: u8,
) -> Option<CustomError> {
    if !mint.is_initialized {
        Some(CustomError::UninitializedState)
    } else if account.state != AccountState::Initialized {
        Some(CustomError::UninitializedState)
    } else if account.mint != mint_key {
        Some(CustomError::MintMismatch)
    } else if mint.decimals != decimals {
        Some(CustomError::MintDecimalsMismatch)
    } else {
        mint_to_error(mint_key, mint, account, authority)
    }
}

/// As `mint_to`, where `decimals` must be the mint's.
pub fn mint_to_checked(
    mint_key: &Address,
    mint: &IncoMint,
    account: &IncoAccount,
    authority: &Address,
    ciphertext: Vec<u8>,
    input_type: u8,
    decimals: u8,
) -> (r: Result<Session, CustomError>)
    ensures
        starts(
            r,
            mint_to_checked_error(*mint_key, *mint, *account, *authority, decimals),
            OpKind::MintTo,
            mint_program(
                mint.supply,
                account.amount,
                AmountSource::Ciphertext { ciphertext, input_type },
            ),
        ),
{
    if let Err(e) = require_initialized_mint(mint) {
        return Err(e);
    }
    if let Err(e) = require_state(account, AccountState::Initialized, CustomError::UninitializedState) {
        return Err(e);
    }
    if let Err(e) = require_linked(account, mint_key) {
        return Err(e);
    }
    if let Err(e) = require_decimals(mint, decimals) {
        return Err(e);
    }
    if let Err(e) = require_authority(&mint.mint_authority, authority, CustomError::FixedSupply) {
        return Err(e);
    }
    Ok(start_mint(mint, account, AmountSource::Ciphertext { ciphertext, input_type }))
}

pub open spec fn burn_checked_error(
    account: IncoAccount,
    mint_key: Address,
    mint: IncoMint,
    authority: Address,
    decimals: u8,
) -> Option<CustomError> {
    if active_error(account) is Some {
        active_error(account)
    } else if !mint.is_initialized {
        Some(CustomError::UninitializedState)
    } else if account.mint != mint_key {
        Some(CustomError::MintMismatch)
    } else if mint.decimals != decimals {
        Some(CustomError::MintDecimalsMismatch)
    } else if !is_owner_or_delegate(account, authority) {
        Some(CustomError::OwnerMismatch)
    } else {
        None
    }
}

/// As `burn`, where `decimals` must be the mint's.
pub fn burn_checked(
    account: &IncoAccount,
    mint_key: &Address,
    mint: &IncoMint,
    authority: &Address,
    ciphertext: Vec<u8>,
    input_type: u8,
    decimals: u8,
) -> (r: Result<Session, CustomError>)
    ensures
        starts(
            r,
            burn_checked_error(*account, *mint_key, *mint, *authority, decimals),
            OpKind::Burn,
            burn_program(
                account.amount,
                mint.supply,
                AmountSource::Ciphertext { ciphertext, input_type },
            ),
        ),
{
    if let Err(e) = require_active(account) {
        return Err(e);
    }
    if let Err(e) = require_initialized_mint(mint) {
        return Err(e);
    }
    if let Err(e) = require_linked(account, mint_key) {
        return Err(e);
    }
    if let Err(e) = require_decimals(mint, decimals) {
        return Err(e);
    }
    if let Err(e) = require_owner_or_delegate(account, authority) {
        return Err(e);
    }
    Ok(start_burn(account, mint, AmountSource::Ciphertext { ciphertext, input_type }))
}

pub open spec fn approve_checked_error(
    source: IncoAccount,
    mint_key: Address,
    mint: IncoMint,
    owner: Address,
    decimals: u8,
) -> Option<CustomError> {
    if active_error(source) is Some {
        active_error(source)
    } else if !mint.is_initialized {
        Some(CustomError::UninitializedState)
    } else if source.owner != owner {
        Some(CustomError::OwnerMismatch)
    } else if source.mint != mint_key {
        Some(CustomError::MintMismatch)
    } else if mint.decimals != decimals {
        Some(CustomError::MintDecimalsMismatch)
    } else {
        None
    }
}

/// As `approve`, where the account must belong to `mint` and `decimals`
/// must be the mint's.
pub fn approve_checked(
    source: &mut IncoAccount,
    mint_key: &Address,
    mint: &IncoMint,
    delegate: &Address,
    owner: &Address,
    ciphertext: Vec<u8>,
    input_type: u8,
    decimals: u8,
) -> (r: Result<Session, CustomError>)
    ensures
        starts(
            r,
            approve_checked_error(*old(source), *mint_key, *mint, *owner, decimals),
            OpKind::Approve,
            amount_prefix(AmountSource::Ciphertext { ciphertext, input_type }),
        ),
        *final(source) == (if approve_checked_error(
            *old(source),
            *mint_key,
            *mint,
            *owner,
            decimals,
        ) is Some {
            *old(source)
        } else {
            IncoAccount { delegate: COption::Present(*delegate), ..*old(source) }
        }),
{
    if let Err(e) = require_active(source) {
        return Err(e);
    }
    if let Err(e) = require_initialized_mint(mint) {
        return Err(e);
    }
    if let Err(e) = require_owner(source, owner) {
        return Err(e);
    }
    if let Err(e) = require_linked(source, mint_key) {
        return Err(e);
    }
    if let Err(e) = require_decimals(mint, decimals) {
        return Err(e);
    }
    source.delegate = COption::Present(*delegate);
    Ok(start_approve(AmountSource::Ciphertext { ciphertext, input_type }))
}

/// As `initialize_account`, the owner being the signing `authority`.
pub fn initialize_account3(
    account: &mut IncoAccount,
    mint_key: &Address,
    mint: &IncoMint,
    authority: &Address,
) -> (r: Result<Session, CustomError>)
    ensures
        starts(
            r,
            initialize_account_error(*old(account), *mint),
            OpKind::InitializeAccount,
            zeros_program(2),
        ),
        *final(account) == (if initialize_account_error(*old(account), *mint) is Some {
            *old(account)
        } else {
            initialized_account(*old(account), *mint_key, *authority)
        }),
{
    initialize_account(account, mint_key, mint, authority)
}

/// As `revoke`, called by the owner as `authority`.
pub fn revoke_2022(source: &mut IncoAccount, authority: &Address) -> (r: Result<
    Session,
    CustomError,
>)
    ensures
        starts(r, revoke_error(*old(source), *authority), OpKind::Revoke, zeros_program(1)),
        *final(source) == (if revoke_error(*old(source), *authority) is Some {
            *old(source)
        } else {
            IncoAccount { delegate: COption::Absent, ..*old(source) }
        }),
{
    revoke(source, authority)
}

/// As `close_account`.
pub fn close_account_2022(
    account: &IncoAccount,
    authority: &Address,
    account_lamports: &mut u64,
    destination_lamports: &mut u64,
) -> (r: Result<(), CustomError>)
    ensures
        r == crate::validate::result_of(
            close_account_error(*account, *authority, *old(account_lamports), *old(destination_lamports)),
        ),
        r is Err ==> *final(account_lamports) == *old(account_lamports) && *final(destination_lamports)
            == *old(destination_lamports),
        r is Ok ==> *final(account_lamports) == 0 && *final(destination_lamports) == *old(
            destination_lamports,
        ) + *old(account_lamports),
{
    close_account(account, authority, account_lamports, destination_lamports)
}

} // verus!
