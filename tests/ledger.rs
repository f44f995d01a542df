use inco_lightning::types::{Ebool, Euint128};
use inco_token::engine::{Call, Instr, OpKind, Reply, Session};
use inco_token::error::CustomError;
use inco_token::token::{
    approve, burn, close_account, finish_burn, finish_delegation, finish_initialize_account,
    finish_initialize_mint, finish_mint_to, finish_transfer, freeze_account, initialize_account,
    initialize_mint, mint_to, mint_to_with_handle, revoke, set_account_owner,
    set_close_authority, set_freeze_authority, set_mint_authority, thaw_account, transfer,
    transfer_with_handle,
};
use inco_token::token_2022::{
    approve_checked, burn_checked, close_account_2022, initialize_account3, mint_to_checked,
    revoke_2022, transfer_checked, transfer_checked_with_handle,
};
use inco_token::types::{AccountState, Address, COption, IncoAccount, IncoMint};

/// An engine that works on plaintext: handle `n` stands for `values[n - 1]`,
/// flag `n` for `flags[n - 1]`. Ciphertext is the plaintext in 16
/// little-endian bytes. Arithmetic wraps modulo 2^128.
struct PlainEngine {
    values: Vec<u128>,
    flags: Vec<bool>,
    calls: usize,
}

impl PlainEngine {
    fn new() -> PlainEngine {
        PlainEngine { values: Vec::new(), flags: Vec::new(), calls: 0 }
    }

    fn value(&self, h: Euint128) -> u128 {
        self.values[(h.0 - 1) as usize]
    }

    fn number(&mut self, v: u128) -> Reply {
        self.values.push(v);
        Reply::Number(Euint128(self.values.len() as u128))
    }

    fn perform(&mut self, call: Call) -> Reply {
        self.calls += 1;
        match call {
            Call::Constant { value } => self.number(value),
            Call::Decode { ciphertext, input_type: _ } => {
                let mut bytes = [0u8; 16];
                bytes.copy_from_slice(&ciphertext);
                self.number(u128::from_le_bytes(bytes))
            }
            Call::Add { lhs, rhs } => {
                let v = self.value(lhs).wrapping_add(self.value(rhs));
                self.number(v)
            }
            Call::Sub { lhs, rhs } => {
                let v = self.value(lhs).wrapping_sub(self.value(rhs));
                self.number(v)
            }
            Call::Ge { lhs, rhs } => {
                let f = self.value(lhs) >= self.value(rhs);
                self.flags.push(f);
                Reply::Flag(Ebool(self.flags.len() as u128))
            }
            Call::Select { cond, if_true, if_false } => {
                let v = if self.flags[(cond.0 - 1) as usize] {
                    self.value(if_true)
                } else {
                    self.value(if_false)
                };
                self.number(v)
            }
        }
    }

    fn run(&mut self, session: &mut Session) {
        while let Some(call) = session.next_call() {
            let reply = self.perform(call);
            assert!(session.record(reply));
        }
        assert!(session.is_complete());
    }
}

fn key(n: u8) -> Address {
    Address::new([n; 32])
}

fn cipher(v: u128) -> Vec<u8> {
    v.to_le_bytes().to_vec()
}

fn blank_mint() -> IncoMint {
    IncoMint {
        mint_authority: COption::Absent,
        supply: Euint128(0),
        decimals: 0,
        is_initialized: false,
        freeze_authority: COption::Absent,
    }
}

fn blank_account() -> IncoAccount {
    IncoAccount {
        mint: key(0),
        owner: key(0),
        amount: Euint128(0),
        delegate: COption::Absent,
        state: AccountState::Uninitialized,
        is_native: COption::Absent,
        delegated_amount: Euint128(0),
        close_authority: COption::Absent,
    }
}

const MINT: u8 = 1;
const AUTH: u8 = 2;
const FREEZER: u8 = 3;
const OWNER1: u8 = 4;
const OWNER2: u8 = 5;
const DELEGATE: u8 = 6;
const ACCT1: u8 = 7;
const ACCT2: u8 = 8;
const STRANGER: u8 = 9;

/// A mint with six decimals, and two empty accounts of it.
struct Ledger {
    engine: PlainEngine,
    mint: IncoMint,
    acct1: IncoAccount,
    acct2: IncoAccount,
}

impl Ledger {
    fn new() -> Ledger {
        let mut engine = PlainEngine::new();
        let mut mint = blank_mint();
        let mut s = initialize_mint(&mut mint, 6, key(AUTH), Some(key(FREEZER))).unwrap();
        engine.run(&mut s);
        finish_initialize_mint(&s, &mut mint);
        let mut acct1 = blank_account();
        let mut s = initialize_account(&mut acct1, &key(MINT), &mint, &key(OWNER1)).unwrap();
        engine.run(&mut s);
        finish_initialize_account(&s, &mut acct1);
        let mut acct2 = blank_account();
        let mut s = initialize_account3(&mut acct2, &key(MINT), &mint, &key(OWNER2)).unwrap();
        engine.run(&mut s);
        finish_initialize_account(&s, &mut acct2);
        Ledger { engine, mint, acct1, acct2 }
    }

    fn mint1(&mut self, v: u128) {
        let mut s =
            mint_to(&key(MINT), &self.mint, &self.acct1, &key(AUTH), cipher(v), 0).unwrap();
        self.engine.run(&mut s);
        finish_mint_to(&s, &mut self.mint, &mut self.acct1);
    }

    fn transfer12(&mut self, by: u8, v: u128) -> Result<(), CustomError> {
        let mut s = transfer(
            &key(ACCT1),
            &self.acct1,
            &key(ACCT2),
            &self.acct2,
            &key(by),
            cipher(v),
            0,
        )?;
        self.engine.run(&mut s);
        finish_transfer(&s, &mut self.acct1, &mut self.acct2);
        Ok(())
    }

    fn burn1(&mut self, by: u8, v: u128) -> Result<(), CustomError> {
        let mut s = burn(&self.acct1, &key(MINT), &self.mint, &key(by), cipher(v), 0)?;
        self.engine.run(&mut s);
        finish_burn(&s, &mut self.acct1, &mut self.mint);
        Ok(())
    }

    fn supply(&self) -> u128 {
        self.engine.value(self.mint.supply)
    }

    fn balance1(&self) -> u128 {
        self.engine.value(self.acct1.amount)
    }

    fn balance2(&self) -> u128 {
        self.engine.value(self.acct2.amount)
    }
}

#[test]
fn mint_approve_transfer_scenario() {
    let mut l = Ledger::new();
    assert_eq!(l.mint.decimals, 6);
    assert_eq!(l.mint.mint_authority, COption::Present(key(AUTH)));
    l.mint1(100);
    assert_eq!(l.supply(), 100);
    assert_eq!(l.balance1(), 100);

    let mut s = approve(&mut l.acct1, &key(DELEGATE), &key(OWNER1), cipher(30), 0).unwrap();
    l.engine.run(&mut s);
    finish_delegation(&s, &mut l.acct1);
    assert_eq!(l.acct1.delegate, COption::Present(key(DELEGATE)));
    assert_eq!(l.engine.value(l.acct1.delegated_amount), 30);

    assert_eq!(l.transfer12(DELEGATE, 30), Ok(()));
    assert_eq!(l.balance1(), 70);
    assert_eq!(l.balance2(), 30);

    assert_eq!(l.transfer12(OWNER1, 1000), Ok(()));
    assert_eq!(l.balance1(), 70);
    assert_eq!(l.balance2(), 30);
    assert_eq!(l.supply(), 100);
}

#[test]
fn initialize_account_sets_fields_and_two_zero_handles() {
    let l = Ledger::new();
    let a = l.acct1;
    assert_eq!(a.mint, key(MINT));
    assert_eq!(a.owner, key(OWNER1));
    assert_eq!(a.state, AccountState::Initialized);
    assert_eq!(a.delegate, COption::Absent);
    assert_eq!(a.is_native, COption::Absent);
    assert_eq!(a.close_authority, COption::Absent);
    assert_ne!(a.amount, a.delegated_amount);
    assert_eq!(l.engine.value(a.amount), 0);
    assert_eq!(l.engine.value(a.delegated_amount), 0);
    assert_eq!(l.mint.freeze_authority, COption::Present(key(FREEZER)));
    assert!(l.mint.is_initialized);
    assert_eq!(l.supply(), 0);
}

#[test]
fn initialize_twice_is_refused() {
    let mut l = Ledger::new();
    let before = l.mint;
    assert_eq!(
        initialize_mint(&mut l.mint, 9, key(STRANGER), None).err(),
        Some(CustomError::AlreadyInUse)
    );
    assert_eq!(l.mint, before);
    let before = l.acct1;
    assert_eq!(
        initialize_account(&mut l.acct1, &key(MINT), &l.mint, &key(STRANGER)).err(),
        Some(CustomError::AlreadyInUse)
    );
    assert_eq!(l.acct1, before);
    let mut fresh = blank_account();
    assert_eq!(
        initialize_account(&mut fresh, &key(MINT), &blank_mint(), &key(OWNER1)).err(),
        Some(CustomError::UninitializedState)
    );
    assert_eq!(fresh, blank_account());
}

#[test]
fn self_transfer_calls_nothing() {
    let mut l = Ledger::new();
    l.mint1(50);
    let calls = l.engine.calls;
    let before = l.acct1;
    let mut s =
        transfer(&key(ACCT1), &l.acct1, &key(ACCT1), &l.acct1, &key(STRANGER), cipher(10), 0)
            .unwrap();
    assert_eq!(s.len(), 0);
    assert!(s.next_call().is_none());
    l.engine.run(&mut s);
    let mut copy = l.acct1;
    finish_transfer(&s, &mut l.acct1, &mut copy);
    assert_eq!(l.engine.calls, calls);
    assert_eq!(l.acct1, before);
    assert_eq!(copy, before);
}

#[test]
fn short_transfer_rewrites_both_balances_with_same_values() {
    let mut l = Ledger::new();
    l.mint1(5);
    let (h1, h2) = (l.acct1.amount, l.acct2.amount);
    assert_eq!(l.transfer12(OWNER1, 6), Ok(()));
    assert_ne!(l.acct1.amount, h1);
    assert_ne!(l.acct2.amount, h2);
    assert_eq!(l.balance1(), 5);
    assert_eq!(l.balance2(), 0);
    assert_eq!(l.transfer12(OWNER1, 5), Ok(()));
    assert_eq!(l.balance1(), 0);
    assert_eq!(l.balance2(), 5);
}

#[test]
fn transfer_program_is_the_same_whatever_the_balance() {
    let mut l = Ledger::new();
    l.mint1(10);
    let s = transfer_with_handle(
        &key(ACCT1),
        &l.acct1,
        &key(ACCT2),
        &l.acct2,
        &key(OWNER1),
        Euint128(1),
    )
    .unwrap();
    assert_eq!(s.kind(), OpKind::Transfer);
    assert_eq!(s.len(), 5);
    let s = transfer(&key(ACCT1), &l.acct1, &key(ACCT2), &l.acct2, &key(OWNER1), cipher(99), 0)
        .unwrap();
    assert_eq!(s.len(), 6);
    match s.next_call() {
        Some(Call::Decode { ciphertext, input_type }) => {
            assert_eq!(ciphertext, cipher(99));
            assert_eq!(input_type, 0);
        }
        _ => panic!("the first call decodes the amount"),
    }
}

#[test]
fn transfer_with_handle_moves_value() {
    let mut l = Ledger::new();
    l.mint1(40);
    let Reply::Number(h) = l.engine.number(15) else { unreachable!() };
    let mut s =
        transfer_with_handle(&key(ACCT1), &l.acct1, &key(ACCT2), &l.acct2, &key(OWNER1), h)
            .unwrap();
    l.engine.run(&mut s);
    finish_transfer(&s, &mut l.acct1, &mut l.acct2);
    assert_eq!(l.balance1(), 25);
    assert_eq!(l.balance2(), 15);
}

#[test]
fn transfer_errors() {
    let mut l = Ledger::new();
    assert_eq!(l.transfer12(STRANGER, 1), Err(CustomError::OwnerMismatch));
    let mut other_mint = l.acct2;
    other_mint.mint = key(STRANGER);
    assert_eq!(
        transfer(&key(ACCT1), &l.acct1, &key(ACCT2), &other_mint, &key(OWNER1), cipher(1), 0)
            .err(),
        Some(CustomError::MintMismatch)
    );
    let fresh = blank_account();
    assert_eq!(
        transfer(&key(ACCT1), &fresh, &key(ACCT2), &l.acct2, &key(OWNER1), cipher(1), 0).err(),
        Some(CustomError::UninitializedState)
    );
    assert_eq!(
        transfer(&key(ACCT1), &l.acct1, &key(ACCT2), &fresh, &key(OWNER1), cipher(1), 0).err(),
        Some(CustomError::UninitializedState)
    );
}

#[test]
fn mint_then_burn_restores_supply() {
    let mut l = Ledger::new();
    l.mint1(100);
    l.mint1(25);
    assert_eq!(l.supply(), 125);
    assert_eq!(l.burn1(OWNER1, 25), Ok(()));
    assert_eq!(l.supply(), 100);
    assert_eq!(l.balance1(), 100);
}

#[test]
fn short_burn_burns_nothing() {
    let mut l = Ledger::new();
    l.mint1(10);
    assert_eq!(l.burn1(OWNER1, 11), Ok(()));
    assert_eq!(l.supply(), 10);
    assert_eq!(l.balance1(), 10);
}

#[test]
fn burn_by_delegate_and_errors() {
    let mut l = Ledger::new();
    l.mint1(10);
    assert_eq!(l.burn1(DELEGATE, 1), Err(CustomError::OwnerMismatch));
    let mut s = approve(&mut l.acct1, &key(DELEGATE), &key(OWNER1), cipher(3), 0).unwrap();
    l.engine.run(&mut s);
    finish_delegation(&s, &mut l.acct1);
    assert_eq!(l.burn1(DELEGATE, 4), Ok(()));
    assert_eq!(l.balance1(), 6);
    assert_eq!(l.supply(), 6);
    assert_eq!(
        burn(&l.acct1, &key(STRANGER), &l.mint, &key(OWNER1), cipher(1), 0).err(),
        Some(CustomError::MintMismatch)
    );
    assert_eq!(
        burn(&l.acct1, &key(MINT), &blank_mint(), &key(OWNER1), cipher(1), 0).err(),
        Some(CustomError::UninitializedState)
    );
}

#[test]
fn mint_errors() {
    let mut l = Ledger::new();
    assert_eq!(
        mint_to(&key(MINT), &l.mint, &l.acct1, &key(STRANGER), cipher(1), 0).err(),
        Some(CustomError::OwnerMismatch)
    );
    assert_eq!(
        mint_to(&key(STRANGER), &l.mint, &l.acct1, &key(AUTH), cipher(1), 0).err(),
        Some(CustomError::MintMismatch)
    );
    assert_eq!(
        mint_to(&key(MINT), &blank_mint(), &l.acct1, &key(AUTH), cipher(1), 0).err(),
        Some(CustomError::UninitializedState)
    );
    assert_eq!(
        mint_to(&key(MINT), &l.mint, &blank_account(), &key(AUTH), cipher(1), 0).err(),
        Some(CustomError::UninitializedState)
    );
    let Reply::Number(h) = l.engine.number(7) else { unreachable!() };
    let mut s = mint_to_with_handle(&key(MINT), &l.mint, &l.acct1, &key(AUTH), h).unwrap();
    assert_eq!(s.kind(), OpKind::MintTo);
    l.engine.run(&mut s);
    finish_mint_to(&s, &mut l.mint, &mut l.acct1);
    assert_eq!(l.supply(), 7);
    assert_eq!(l.balance1(), 7);
}

#[test]
fn freeze_then_thaw_round_trip() {
    let mut l = Ledger::new();
    l.mint1(20);
    let before = l.acct1;
    assert_eq!(freeze_account(&mut l.acct1, &key(MINT), &l.mint, &key(FREEZER)), Ok(()));
    assert_eq!(l.acct1.state, AccountState::Frozen);
    let frozen = l.acct1;

    assert_eq!(l.transfer12(OWNER1, 1), Err(CustomError::AccountFrozen));
    assert_eq!(
        transfer(&key(ACCT2), &l.acct2, &key(ACCT1), &l.acct1, &key(OWNER2), cipher(1), 0).err(),
        Some(CustomError::AccountFrozen)
    );
    assert_eq!(l.burn1(OWNER1, 1), Err(CustomError::AccountFrozen));
    assert_eq!(
        approve(&mut l.acct1, &key(DELEGATE), &key(OWNER1), cipher(1), 0).err(),
        Some(CustomError::AccountFrozen)
    );
    assert_eq!(l.acct1, frozen);
    assert_eq!(
        freeze_account(&mut l.acct1, &key(MINT), &l.mint, &key(FREEZER)),
        Err(CustomError::UninitializedState)
    );

    assert_eq!(thaw_account(&mut l.acct1, &key(MINT), &l.mint, &key(FREEZER)), Ok(()));
    assert_eq!(l.acct1, before);
    assert_eq!(
        thaw_account(&mut l.acct1, &key(MINT), &l.mint, &key(FREEZER)),
        Err(CustomError::InvalidState)
    );
    assert_eq!(l.transfer12(OWNER1, 5), Ok(()));
    assert_eq!(l.balance2(), 5);
}

#[test]
fn freeze_needs_the_freeze_authority() {
    let mut l = Ledger::new();
    let before = l.acct1;
    assert_eq!(
        freeze_account(&mut l.acct1, &key(MINT), &l.mint, &key(STRANGER)),
        Err(CustomError::OwnerMismatch)
    );
    assert_eq!(
        freeze_account(&mut l.acct1, &key(STRANGER), &l.mint, &key(FREEZER)),
        Err(CustomError::MintMismatch)
    );
    assert_eq!(l.acct1, before);
}

#[test]
fn removed_mint_authority_stays_removed() {
    let mut l = Ledger::new();
    assert_eq!(
        set_mint_authority(&mut l.mint, &key(STRANGER), None),
        Err(CustomError::OwnerMismatch)
    );
    assert_eq!(set_mint_authority(&mut l.mint, &key(AUTH), None), Ok(()));
    assert_eq!(l.mint.mint_authority, COption::Absent);
    for caller in [AUTH, STRANGER] {
        assert_eq!(
            mint_to(&key(MINT), &l.mint, &l.acct1, &key(caller), cipher(1), 0).err(),
            Some(CustomError::FixedSupply)
        );
        assert_eq!(
            set_mint_authority(&mut l.mint, &key(caller), Some(key(caller))),
            Err(CustomError::FixedSupply)
        );
    }
    assert_eq!(l.mint.mint_authority, COption::Absent);
}

#[test]
fn mint_authority_rotation_hands_over() {
    let mut l = Ledger::new();
    assert_eq!(set_mint_authority(&mut l.mint, &key(AUTH), Some(key(STRANGER))), Ok(()));
    assert_eq!(
        mint_to(&key(MINT), &l.mint, &l.acct1, &key(AUTH), cipher(1), 0).err(),
        Some(CustomError::OwnerMismatch)
    );
    assert!(mint_to(&key(MINT), &l.mint, &l.acct1, &key(STRANGER), cipher(1), 0).is_ok());
}

#[test]
fn removed_freeze_authority_stays_removed() {
    let mut l = Ledger::new();
    assert_eq!(set_freeze_authority(&mut l.mint, &key(FREEZER), None), Ok(()));
    assert_eq!(
        freeze_account(&mut l.acct1, &key(MINT), &l.mint, &key(FREEZER)),
        Err(CustomError::MintCannotFreeze)
    );
    assert_eq!(
        set_freeze_authority(&mut l.mint, &key(FREEZER), Some(key(FREEZER))),
        Err(CustomError::MintCannotFreeze)
    );
    l.acct2.state = AccountState::Frozen;
    assert_eq!(
        thaw_account(&mut l.acct2, &key(MINT), &l.mint, &key(FREEZER)),
        Err(CustomError::MintCannotFreeze)
    );
    assert_eq!(
        set_freeze_authority(&mut blank_mint(), &key(FREEZER), None),
        Err(CustomError::UninitializedState)
    );
}

#[test]
fn owner_and_close_authority_rotation() {
    let mut l = Ledger::new();
    assert_eq!(
        set_account_owner(&mut l.acct1, &key(STRANGER), key(STRANGER)),
        Err(CustomError::OwnerMismatch)
    );
    assert_eq!(freeze_account(&mut l.acct1, &key(MINT), &l.mint, &key(FREEZER)), Ok(()));
    assert_eq!(set_account_owner(&mut l.acct1, &key(OWNER1), key(OWNER2)), Ok(()));
    assert_eq!(l.acct1.owner, key(OWNER2));
    assert_eq!(set_close_authority(&mut l.acct1, &key(OWNER2), Some(key(STRANGER))), Ok(()));
    assert_eq!(l.acct1.close_authority, COption::Present(key(STRANGER)));
    assert_eq!(set_close_authority(&mut l.acct1, &key(OWNER2), None), Ok(()));
    assert_eq!(l.acct1.close_authority, COption::Absent);
    let mut fresh = blank_account();
    assert_eq!(
        set_close_authority(&mut fresh, &key(0), None),
        Err(CustomError::UninitializedState)
    );
}

#[test]
fn close_moves_the_reserve() {
    let mut l = Ledger::new();
    let (mut reserve, mut dest) = (2_000u64, 500u64);
    assert_eq!(
        close_account(&l.acct1, &key(STRANGER), &mut reserve, &mut dest),
        Err(CustomError::OwnerMismatch)
    );
    assert_eq!((reserve, dest), (2_000, 500));
    assert_eq!(set_close_authority(&mut l.acct1, &key(OWNER1), Some(key(STRANGER))), Ok(()));
    assert_eq!(close_account(&l.acct1, &key(STRANGER), &mut reserve, &mut dest), Ok(()));
    assert_eq!((reserve, dest), (0, 2_500));
    let (mut reserve, mut dest) = (7u64, 1u64);
    assert_eq!(close_account_2022(&l.acct2, &key(OWNER2), &mut reserve, &mut dest), Ok(()));
    assert_eq!((reserve, dest), (0, 8));
}

#[test]
fn close_overflow_and_uninitialized() {
    let l = Ledger::new();
    let (mut reserve, mut dest) = (2u64, u64::MAX - 1);
    assert_eq!(
        close_account(&l.acct1, &key(OWNER1), &mut reserve, &mut dest),
        Err(CustomError::Overflow)
    );
    assert_eq!((reserve, dest), (2, u64::MAX - 1));
    let (mut reserve, mut dest) = (1u64, u64::MAX - 1);
    assert_eq!(close_account(&l.acct1, &key(OWNER1), &mut reserve, &mut dest), Ok(()));
    assert_eq!((reserve, dest), (0, u64::MAX));
    assert_eq!(
        close_account(&blank_account(), &key(0), &mut reserve, &mut dest),
        Err(CustomError::UninitializedState)
    );
}

#[test]
fn revoke_is_owner_only_and_zeroes_the_grant() {
    let mut l = Ledger::new();
    l.mint1(9);
    let mut s = approve(&mut l.acct1, &key(DELEGATE), &key(OWNER1), cipher(4), 0).unwrap();
    l.engine.run(&mut s);
    finish_delegation(&s, &mut l.acct1);
    assert_eq!(revoke(&mut l.acct1, &key(DELEGATE)).err(), Some(CustomError::OwnerMismatch));
    let mut s = revoke(&mut l.acct1, &key(OWNER1)).unwrap();
    assert_eq!(s.kind(), OpKind::Revoke);
    l.engine.run(&mut s);
    finish_delegation(&s, &mut l.acct1);
    assert_eq!(l.acct1.delegate, COption::Absent);
    assert_eq!(l.engine.value(l.acct1.delegated_amount), 0);
    assert_eq!(l.transfer12(DELEGATE, 1), Err(CustomError::OwnerMismatch));
    let mut s = revoke_2022(&mut l.acct2, &key(OWNER2)).unwrap();
    l.engine.run(&mut s);
    finish_delegation(&s, &mut l.acct2);
    assert_eq!(
        approve(&mut l.acct2, &key(DELEGATE), &key(STRANGER), cipher(1), 0).err(),
        Some(CustomError::OwnerMismatch)
    );
}

#[test]
fn approve_replaces_the_grant() {
    let mut l = Ledger::new();
    for (d, v) in [(DELEGATE, 30u128), (STRANGER, 2u128)] {
        let mut s = approve(&mut l.acct1, &key(d), &key(OWNER1), cipher(v), 0).unwrap();
        assert_eq!(s.kind(), OpKind::Approve);
        l.engine.run(&mut s);
        finish_delegation(&s, &mut l.acct1);
        assert_eq!(l.acct1.delegate, COption::Present(key(d)));
        assert_eq!(l.engine.value(l.acct1.delegated_amount), v);
    }
}

#[test]
fn checked_instructions() {
    let mut l = Ledger::new();
    let mut s =
        mint_to_checked(&key(MINT), &l.mint, &l.acct1, &key(AUTH), cipher(50), 0, 6).unwrap();
    l.engine.run(&mut s);
    finish_mint_to(&s, &mut l.mint, &mut l.acct1);
    assert_eq!(l.supply(), 50);
    assert_eq!(
        mint_to_checked(&key(MINT), &l.mint, &l.acct1, &key(AUTH), cipher(1), 0, 9).err(),
        Some(CustomError::MintDecimalsMismatch)
    );

    let mut s = transfer_checked(
        &key(ACCT1),
        &l.acct1,
        &key(MINT),
        &l.mint,
        &key(ACCT2),
        &l.acct2,
        &key(OWNER1),
        cipher(20),
        0,
        6,
    )
    .unwrap();
    l.engine.run(&mut s);
    finish_transfer(&s, &mut l.acct1, &mut l.acct2);
    assert_eq!((l.balance1(), l.balance2()), (30, 20));
    assert_eq!(
        transfer_checked_with_handle(
            &key(ACCT1),
            &l.acct1,
            &key(MINT),
            &l.mint,
            &key(ACCT2),
            &l.acct2,
            &key(OWNER1),
            Euint128(1),
            7,
        )
        .err(),
        Some(CustomError::MintDecimalsMismatch)
    );
    assert_eq!(
        transfer_checked(
            &key(ACCT1),
            &l.acct1,
            &key(STRANGER),
            &l.mint,
            &key(ACCT2),
            &l.acct2,
            &key(OWNER1),
            cipher(1),
            0,
            6,
        )
        .err(),
        Some(CustomError::MintMismatch)
    );

    let mut s =
        burn_checked(&l.acct2, &key(MINT), &l.mint, &key(OWNER2), cipher(5), 0, 6).unwrap();
    l.engine.run(&mut s);
    finish_burn(&s, &mut l.acct2, &mut l.mint);
    assert_eq!((l.balance2(), l.supply()), (15, 45));
    assert_eq!(
        burn_checked(&l.acct2, &key(MINT), &l.mint, &key(OWNER2), cipher(5), 0, 0).err(),
        Some(CustomError::MintDecimalsMismatch)
    );

    let mut s = approve_checked(
        &mut l.acct2,
        &key(MINT),
        &l.mint,
        &key(DELEGATE),
        &key(OWNER2),
        cipher(8),
        0,
        6,
    )
    .unwrap();
    l.engine.run(&mut s);
    finish_delegation(&s, &mut l.acct2);
    assert_eq!(l.engine.value(l.acct2.delegated_amount), 8);
    let before = l.acct1;
    assert_eq!(
        approve_checked(
            &mut l.acct1,
            &key(MINT),
            &l.mint,
            &key(DELEGATE),
            &key(OWNER1),
            cipher(8),
            0,
            5,
        )
        .err(),
        Some(CustomError::MintDecimalsMismatch)
    );
    assert_eq!(l.acct1, before);
}

#[test]
fn session_refuses_replies_out_of_turn() {
    let l = Ledger::new();
    let mut s = transfer_with_handle(
        &key(ACCT1),
        &l.acct1,
        &key(ACCT2),
        &l.acct2,
        &key(OWNER1),
        Euint128(1),
    )
    .unwrap();
    assert!(matches!(s.next_call(), Some(Call::Ge { .. })));
    assert!(!s.record(Reply::Number(Euint128(3))));
    assert!(s.record(Reply::Flag(Ebool(1))));
    assert!(matches!(s.next_call(), Some(Call::Constant { value: 0 })));
    assert!(!s.record(Reply::Flag(Ebool(2))));
    assert!(s.record(Reply::Number(Euint128(9))));
    match s.next_call() {
        Some(Call::Select { cond, if_true, if_false }) => {
            assert_eq!(cond, Ebool(1));
            assert_eq!(if_true, Euint128(1));
            assert_eq!(if_false, Euint128(9));
        }
        _ => panic!("the third call selects"),
    }
    let mut s = revoke(&mut l.acct1.clone(), &key(OWNER1)).unwrap();
    assert!(s.record(Reply::Number(Euint128(4))));
    assert!(s.is_complete());
    assert!(!s.record(Reply::Number(Euint128(5))));
    assert_eq!(s.len(), 1);
}

#[test]
fn address_and_option_basics() {
    assert_eq!(key(1), Address::new([1; 32]));
    let mut bytes = [1u8; 32];
    bytes[31] = 2;
    assert_ne!(key(1), Address::new(bytes));
    let none: COption<u64> = COption::default();
    assert!(none.is_none() && !none.is_some());
    let some = COption::Present(3u64);
    assert!(some.is_some() && !some.is_none());
    assert_eq!(inco_token::types::to_coption(Some(4u8)), COption::Present(4u8));
    assert_eq!(IncoMint::LEN, 106);
    assert_eq!(IncoAccount::LEN, 213);
    let _ = Instr::Constant { value: 0 };
}
