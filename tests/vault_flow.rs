use anchor_lang::prelude::Pubkey;
use vault::address::{make_state_seeds, make_vault_seeds, verify, Address};
use vault::error::VaultError;
use vault::ledger::{Asset, Holding};
use vault::state::Bank;
use vault::vault::{Close, Deposit, Initialize, Withdraw};
use vault::{close, deposit, initialize, withdraw};

fn addr(n: u8) -> Address {
    Address { bytes: [n; 32] }
}

fn program() -> Address {
    addr(9)
}

fn balance(bank: &Bank, a: &Address) -> Option<u64> {
    bank.ledger.account(a).map(|h| h.amount)
}

fn native(owner: Address, amount: u64) -> Holding {
    Holding { asset: Asset::Native, authority: owner, amount }
}

/// The owner, its record address and its vault address.
fn vault_addresses(owner: &Address) -> (Address, Address) {
    let (state, _) = vault::address::derive(&make_state_seeds(owner), &program()).unwrap();
    let (vault, _) = vault::address::derive(&make_vault_seeds(&state), &program()).unwrap();
    (state, vault)
}

/// A bank where `owner` holds 1000 and has an open vault, and a bystander holds 77.
fn opened(owner: Address) -> (Bank, Address, Address) {
    let mut bank = Bank::new(program());
    bank.ledger.create(owner, native(owner, 1000)).unwrap();
    bank.ledger.create(addr(5), native(addr(5), 77)).unwrap();
    let (state, vault) = vault_addresses(&owner);
    let ctx = Initialize { signer: owner, vault_state: state, vault };
    assert_eq!(initialize(&ctx, &mut bank), Ok(()));
    (bank, state, vault)
}

#[test]
fn state_address_matches_pubkey_derivation() {
    let owner = addr(1);
    let (state, _) = vault_addresses(&owner);
    let (expected, bump) =
        Pubkey::find_program_address(&[b"state", &owner.bytes], &Pubkey::from(program().bytes));
    assert_eq!(state.bytes, expected.to_bytes());
    assert!(verify(&state, make_state_seeds(&owner), bump, &program()));
    assert!(!verify(&state, make_state_seeds(&addr(2)), bump, &program()));
    assert_ne!(state.bytes, owner.bytes);
}

#[test]
fn initialize_creates_empty_vault() {
    let owner = addr(1);
    let (bank, state, vault) = opened(owner);
    assert_eq!(balance(&bank, &vault), Some(0));
    assert!(bank.vault_states.get(&state).is_some());
}

#[test]
fn initialize_twice_already_exists() {
    let owner = addr(1);
    let (mut bank, state, vault) = opened(owner);
    let ctx = Initialize { signer: owner, vault_state: state, vault };
    assert_eq!(initialize(&ctx, &mut bank), Err(VaultError::AlreadyExists));
}

#[test]
fn initialize_with_foreign_state_mismatch() {
    let owner = addr(1);
    let mut bank = Bank::new(program());
    let (state, vault) = vault_addresses(&addr(2));
    let ctx = Initialize { signer: owner, vault_state: state, vault };
    assert_eq!(initialize(&ctx, &mut bank), Err(VaultError::AccountMismatch));
    assert!(bank.vault_states.get(&state).is_none());
}

#[test]
fn deposit_then_withdraw_moves_exact_amounts() {
    let owner = addr(1);
    let (mut bank, state, vault) = opened(owner);
    let d = Deposit { signer: owner, vault_state: state, vault };
    assert_eq!(deposit(&d, &mut bank, 300), Ok(()));
    assert_eq!(balance(&bank, &vault), Some(300));
    assert_eq!(balance(&bank, &owner), Some(700));
    let w = Withdraw { signer: owner, vault_state: state, vault };
    assert_eq!(withdraw(&w, &mut bank, 120), Ok(()));
    assert_eq!(balance(&bank, &vault), Some(180));
    assert_eq!(balance(&bank, &owner), Some(820));
    assert_eq!(balance(&bank, &addr(5)), Some(77));
}

#[test]
fn withdraw_whole_balance() {
    let owner = addr(1);
    let (mut bank, state, vault) = opened(owner);
    let d = Deposit { signer: owner, vault_state: state, vault };
    assert_eq!(deposit(&d, &mut bank, 1000), Ok(()));
    let w = Withdraw { signer: owner, vault_state: state, vault };
    assert_eq!(withdraw(&w, &mut bank, 1000), Ok(()));
    assert_eq!(balance(&bank, &vault), Some(0));
    assert_eq!(balance(&bank, &owner), Some(1000));
}

#[test]
fn withdraw_above_balance_insufficient() {
    let owner = addr(1);
    let (mut bank, state, vault) = opened(owner);
    let d = Deposit { signer: owner, vault_state: state, vault };
    assert_eq!(deposit(&d, &mut bank, 40), Ok(()));
    let w = Withdraw { signer: owner, vault_state: state, vault };
    assert_eq!(withdraw(&w, &mut bank, 41), Err(VaultError::InsufficientFunds));
    assert_eq!(balance(&bank, &vault), Some(40));
    assert_eq!(balance(&bank, &owner), Some(960));
}

#[test]
fn deposit_above_owner_balance_insufficient() {
    let owner = addr(1);
    let (mut bank, state, vault) = opened(owner);
    let d = Deposit { signer: owner, vault_state: state, vault };
    assert_eq!(deposit(&d, &mut bank, 1001), Err(VaultError::InsufficientFunds));
    assert_eq!(balance(&bank, &vault), Some(0));
}

#[test]
fn withdraw_by_other_signer_mismatch() {
    let owner = addr(1);
    let (mut bank, state, vault) = opened(owner);
    let w = Withdraw { signer: addr(5), vault_state: state, vault };
    assert_eq!(withdraw(&w, &mut bank, 0), Err(VaultError::AccountMismatch));
}

#[test]
fn deposit_without_record_not_found() {
    let owner = addr(1);
    let mut bank = Bank::new(program());
    bank.ledger.create(owner, native(owner, 10)).unwrap();
    let (state, vault) = vault_addresses(&owner);
    let d = Deposit { signer: owner, vault_state: state, vault };
    assert_eq!(deposit(&d, &mut bank, 1), Err(VaultError::NotFound));
}

#[test]
fn close_removes_record_and_leaves_balance() {
    let owner = addr(1);
    let (mut bank, state, vault) = opened(owner);
    let d = Deposit { signer: owner, vault_state: state, vault };
    assert_eq!(deposit(&d, &mut bank, 25), Ok(()));
    let c = Close { signer: owner, vault_state: state, vault };
    assert_eq!(close(&c, &mut bank), Ok(()));
    assert!(bank.vault_states.get(&state).is_none());
    assert_eq!(balance(&bank, &vault), Some(25));
    assert_eq!(close(&c, &mut bank), Err(VaultError::NotFound));
    let w = Withdraw { signer: owner, vault_state: state, vault };
    assert_eq!(withdraw(&w, &mut bank, 1), Err(VaultError::NotFound));
}

#[test]
fn ledger_transfer_errors() {
    let mut bank = Bank::new(program());
    let a = addr(1);
    let b = addr(2);
    let mint = addr(3);
    bank.ledger.create(a, native(a, 10)).unwrap();
    bank.ledger.create(b, native(b, u64::MAX)).unwrap();
    bank.ledger
        .create(addr(4), Holding { asset: Asset::Token(mint), authority: a, amount: 0 })
        .unwrap();
    assert_eq!(bank.ledger.create(a, native(a, 1)), Err(VaultError::AlreadyExists));
    assert_eq!(bank.ledger.transfer(&a, &addr(8), &Asset::Native, 1, &a), Err(VaultError::NotFound));
    assert_eq!(bank.ledger.transfer(&a, &b, &Asset::Native, 1, &b), Err(VaultError::AuthorityInvalid));
    assert_eq!(bank.ledger.transfer(&a, &b, &Asset::Native, 1, &a), Err(VaultError::Overflow));
    assert_eq!(
        bank.ledger.transfer(&a, &addr(4), &Asset::Native, 1, &a),
        Err(VaultError::AccountMismatch)
    );
    assert_eq!(bank.ledger.close_account(&a, &a), Err(VaultError::NonEmptyAccount));
    assert_eq!(bank.ledger.close_account(&addr(4), &b), Err(VaultError::AuthorityInvalid));
    assert_eq!(bank.ledger.close_account(&addr(4), &a), Ok(()));
    assert!(bank.ledger.account(&addr(4)).is_none());
    assert_eq!(balance(&bank, &a), Some(10));
}
