//! Checks made before an instruction changes anything. Each fails with one
//! specific error, and none of them calls the engine.
use vstd::prelude::*;
use crate::types::{Address, AccountState, COption, IncoAccount, IncoMint};
use crate::error::CustomError;

verus! {

/// `Ok` when no error is found, the error otherwise.
pub open spec fn result_of(e: Option<CustomError>) -> Result<(), CustomError> {
    match e {
        Option::Some(e) => Err(e),
        Option::None => Ok(()),
    }
}

/// An account that may send, receive, burn or approve: initialized and not
/// frozen.
pub open spec fn active_error(a: IncoAccount) -> Option<CustomError> {
    match a.state {
        AccountState::Frozen => Some(CustomError::AccountFrozen),
        AccountState::Uninitialized => Some(CustomError::UninitializedState),
        AccountState::Initialized => None,
    }
}

pub fn require_active(a: &IncoAccount) -> (r: Result<(), CustomError>)
    ensures
        r == result_of(active_error(*a)),
{
    match a.state {
        AccountState::Frozen => Err(CustomError::AccountFrozen),
        AccountState::Uninitialized => Err(CustomError::UninitializedState),
        AccountState::Initialized => Ok(()),
    }
}

/// The account has been initialized: it may be frozen.
pub fn require_initialized_account(a: &IncoAccount) -> (r: Result<(), CustomError>)
    ensures
        r == (if a.state != AccountState::Uninitialized {
            Ok::<(), CustomError>(())
        } else {
            Err(CustomError::UninitializedState)
        }),
{
    match a.state {
        AccountState::Uninitialized => Err(CustomError::UninitializedState),
        _ => Ok(()),
    }
}

/// The account is in state `expected`; `err` otherwise.
pub fn require_state(a: &IncoAccount, expected: AccountState, err: CustomError) -> (r: Result<
    (),
    CustomError,
>)
    ensures
        r == (if a.state == expected {
            Ok::<(), CustomError>(())
        } else {
            Err(err)
        }),
{
    if a.state == expected {
        Ok(())
    } else {
        Err(err)
    }
}

pub fn require_initialized_mint(m: &IncoMint) -> (r: Result<(), CustomError>)
    ensures
        r == (if m.is_initialized {
            Ok::<(), CustomError>(())
        } else {
            Err(CustomError::UninitializedState)
        }),
{
    if m.is_initialized {
        Ok(())
    } else {
        Err(CustomError::UninitializedState)
    }
}

/// The account belongs to the mint whose key is `mint_key`.
pub fn require_linked(a: &IncoAccount, mint_key: &Address) -> (r: Result<(), CustomError>)
    ensures
        r == (if a.mint == *mint_key {
            Ok::<(), CustomError>(())
        } else {
            Err(CustomError::MintMismatch)
        }),
{
    if a.mint == *mint_key {
        Ok(())
    } else {
        Err(CustomError::MintMismatch)
    }
}

/// For the checked instructions: the caller states the mint's decimals.
pub fn require_decimals(m: &IncoMint, decimals: u8) -> (r: Result<(), CustomError>)
    ensures
        r == (if m.decimals == decimals {
            Ok::<(), CustomError>(())
        } else {
            Err(CustomError::MintDecimalsMismatch)
        }),
{
    if m.decimals == decimals {
        Ok(())
    } else {
        Err(CustomError::MintDecimalsMismatch)
    }
}

/// An absent authority gives `disabled` (the capability is gone for good),
/// a present one that is not the caller gives `OwnerMismatch`.
pub open spec fn authority_error(
    expected: COption<Address>,
    caller: Address,
    disabled: CustomError,
) -> Option<CustomError> {
    match expected {
        COption::Absent => Some(disabled),
        COption::Present(k) => if k == caller {
            None
        } else {
            Some(CustomError::OwnerMismatch)
        },
    }
}

pub fn require_authority(expected: &COption<Address>, caller: &Address, disabled: CustomError) -> (r:
    Result<(), CustomError>)
    ensures
        r == result_of(authority_error(*expected, *caller, disabled)),
{
    match expected {
        COption::Absent => Err(disabled),
        COption::Present(k) => if *k == *caller {
            Ok(())
        } else {
            Err(CustomError::OwnerMismatch)
        },
    }
}

pub fn require_owner(a: &IncoAccount, caller: &Address) -> (r: Result<(), CustomError>)
    ensures
        r == (if a.owner == *caller {
            Ok::<(), CustomError>(())
        } else {
            Err(CustomError::OwnerMismatch)
        }),
{
    if a.owner == *caller {
        Ok(())
    } else {
        Err(CustomError::OwnerMismatch)
    }
}

/// The caller owns the account or is its delegate. How much was delegated
/// is not looked at.
pub open spec fn is_owner_or_delegate(a: IncoAccount, caller: Address) -> bool {
    a.owner == caller || a.delegate == COption::Present(caller)
}

pub fn require_owner_or_delegate(a: &IncoAccount, caller: &Address) -> (r: Result<(), CustomError>)
    ensures
        r == (if is_owner_or_delegate(*a, *caller) {
            Ok::<(), CustomError>(())
        } else {
            Err(CustomError::OwnerMismatch)
        }),
{
    if a.owner == *caller {
        return Ok(());
    }
    match &a.delegate {
        COption::Present(d) if *d == *caller => Ok(()),
        _ => Err(CustomError::OwnerMismatch),
    }
}

/// The caller owns the account or is its close authority.
pub open spec fn is_owner_or_close_authority(a: IncoAccount, caller: Address) -> bool {
    a.owner == caller || a.close_authority == COption::Present(caller)
}

pub fn require_owner_or_close_authority(a: &IncoAccount, caller: &Address) -> (r: Result<
    (),
    CustomError,
>)
    ensures
        r == (if is_owner_or_close_authority(*a, *caller) {
            Ok::<(), CustomError>(())
        } else {
            Err(CustomError::OwnerMismatch)
        }),
{
    let is_owner = a.owner == *caller;
    let is_close_authority = match &a.close_authority {
        COption::Present(c) => *c == *caller,
        COption::Absent => false,
    };
    if is_owner || is_close_authority {
        Ok(())
    } else {
        Err(CustomError::OwnerMismatch)
    }
}

} // verus!
