use anchor_lang::prelude::Pubkey;
use vault::address::{make_escrow_seeds, Address};
use vault::error::VaultError;
use vault::escrow::{Make, Refund, Take};
use vault::ledger::{Asset, Holding};
use vault::state::Bank;
use vault::{make, refund, take};

fn addr(n: u8) -> Address {
    Address { bytes: [n; 32] }
}

fn program() -> Address {
    addr(9)
}

fn balance(bank: &Bank, a: &Address) -> Option<u64> {
    bank.ledger.account(a).map(|h| h.amount)
}

const MAKER: u8 = 1;
const TAKER: u8 = 2;
const MINT_A: u8 = 3;
const MINT_B: u8 = 4;
const MAKER_A: u8 = 11;
const MAKER_B: u8 = 12;
const TAKER_A: u8 = 21;
const TAKER_B: u8 = 22;
const VAULT: u8 = 30;

fn escrow_of(seed: u64) -> Address {
    vault::address::derive(&make_escrow_seeds(&addr(MAKER), seed), &program()).unwrap().0
}

/// The maker holds 500 of asset A, the taker 1000 of asset B.
fn funded() -> Bank {
    let mut bank = Bank::new(program());
    bank.ledger
        .create(
            addr(MAKER_A),
            Holding { asset: Asset::Token(addr(MINT_A)), authority: addr(MAKER), amount: 500 },
        )
        .unwrap();
    bank.ledger
        .create(
            addr(TAKER_B),
            Holding { asset: Asset::Token(addr(MINT_B)), authority: addr(TAKER), amount: 1000 },
        )
        .unwrap();
    bank
}

fn make_ctx(seed: u64) -> Make {
    Make {
        maker: addr(MAKER),
        mint_a: addr(MINT_A),
        mint_b: addr(MINT_B),
        maker_mint_a_ata: addr(MAKER_A),
        escrow: escrow_of(seed),
        vault: addr(VAULT),
    }
}

fn take_ctx(seed: u64) -> Take {
    Take {
        taker: addr(TAKER),
        maker: addr(MAKER),
        mint_a: addr(MINT_A),
        mint_b: addr(MINT_B),
        taker_mint_a_ata: addr(TAKER_A),
        taker_mint_b_ata: addr(TAKER_B),
        maker_mint_b_ata: addr(MAKER_B),
        escrow: escrow_of(seed),
        vault: addr(VAULT),
    }
}

fn refund_ctx(seed: u64) -> Refund {
    Refund {
        maker: addr(MAKER),
        mint_a: addr(MINT_A),
        mint_b: addr(MINT_B),
        maker_mint_a_ata: addr(MAKER_A),
        escrow: escrow_of(seed),
        vault: addr(VAULT),
    }
}

#[test]
fn escrow_address_matches_pubkey_derivation() {
    let seed: u64 = 7;
    let maker = addr(MAKER);
    let (expected, bump) = Pubkey::find_program_address(
        &[b"escrow", &maker.bytes, &seed.to_le_bytes()],
        &Pubkey::from(program().bytes),
    );
    let (a, b) = vault::address::derive(&make_escrow_seeds(&maker, seed), &program()).unwrap();
    assert_eq!(a.bytes, expected.to_bytes());
    assert_eq!(b, bump);
}

#[test]
fn escrow_derivation_is_deterministic() {
    let maker = addr(MAKER);
    let first = vault::address::derive(&make_escrow_seeds(&maker, 7), &program()).unwrap();
    let second = vault::address::derive(&make_escrow_seeds(&maker, 7), &program()).unwrap();
    assert_eq!(first.0.bytes, second.0.bytes);
    assert_eq!(first.1, second.1);
    let other_seed = vault::address::derive(&make_escrow_seeds(&maker, 8), &program()).unwrap();
    assert_ne!(first.0.bytes, other_seed.0.bytes);
    let mut other = maker;
    other.bytes[31] ^= 1;
    let other_maker = vault::address::derive(&make_escrow_seeds(&other, 7), &program()).unwrap();
    assert_ne!(first.0.bytes, other_maker.0.bytes);
}

#[test]
fn make_locks_deposit() {
    let mut bank = funded();
    assert_eq!(make(&make_ctx(7), &mut bank, 7, 100, 50), Ok(()));
    assert_eq!(balance(&bank, &addr(MAKER_A)), Some(450));
    assert_eq!(balance(&bank, &addr(VAULT)), Some(50));
    let rec = bank.escrows.get(&escrow_of(7)).unwrap();
    assert_eq!(rec.seed, 7);
    assert_eq!(rec.receive_amount, 100);
    assert_eq!(rec.maker.bytes, addr(MAKER).bytes);
}

#[test]
fn make_twice_already_exists() {
    let mut bank = funded();
    assert_eq!(make(&make_ctx(7), &mut bank, 7, 100, 50), Ok(()));
    assert_eq!(make(&make_ctx(7), &mut bank, 7, 10, 5), Err(VaultError::AlreadyExists));
    assert_eq!(balance(&bank, &addr(MAKER_A)), Some(450));
}

#[test]
fn make_at_wrong_escrow_address_mismatch() {
    let mut bank = funded();
    let mut ctx = make_ctx(7);
    ctx.escrow = escrow_of(8);
    assert_eq!(make(&ctx, &mut bank, 7, 100, 50), Err(VaultError::AccountMismatch));
    assert!(bank.escrows.get(&escrow_of(8)).is_none());
}

#[test]
fn make_without_funds_leaves_nothing() {
    let mut bank = funded();
    assert_eq!(make(&make_ctx(7), &mut bank, 7, 100, 501), Err(VaultError::InsufficientFunds));
    assert!(bank.escrows.get(&escrow_of(7)).is_none());
    assert!(bank.ledger.account(&addr(VAULT)).is_none());
    assert_eq!(balance(&bank, &addr(MAKER_A)), Some(500));
}

#[test]
fn make_refund_make_succeeds() {
    let mut bank = funded();
    assert_eq!(make(&make_ctx(7), &mut bank, 7, 100, 50), Ok(()));
    assert_eq!(refund(&refund_ctx(7), &mut bank), Ok(()));
    assert_eq!(make(&make_ctx(7), &mut bank, 7, 100, 50), Ok(()));
    assert_eq!(balance(&bank, &addr(VAULT)), Some(50));
}

#[test]
fn make_take_round_trip() {
    let mut bank = funded();
    assert_eq!(make(&make_ctx(7), &mut bank, 7, 100, 50), Ok(()));
    assert_eq!(take(&take_ctx(7), &mut bank), Ok(()));
    assert_eq!(balance(&bank, &addr(TAKER_A)), Some(50));
    assert_eq!(balance(&bank, &addr(MAKER_B)), Some(100));
    assert_eq!(balance(&bank, &addr(TAKER_B)), Some(900));
    assert_eq!(balance(&bank, &addr(MAKER_A)), Some(450));
    assert!(bank.ledger.account(&addr(VAULT)).is_none());
    assert!(bank.escrows.get(&escrow_of(7)).is_none());
}

#[test]
fn refund_returns_deposit() {
    let mut bank = funded();
    assert_eq!(make(&make_ctx(7), &mut bank, 7, 100, 50), Ok(()));
    assert_eq!(balance(&bank, &addr(MAKER_A)), Some(450));
    assert_eq!(refund(&refund_ctx(7), &mut bank), Ok(()));
    assert_eq!(balance(&bank, &addr(MAKER_A)), Some(500));
    assert_eq!(balance(&bank, &addr(TAKER_B)), Some(1000));
    assert!(bank.ledger.account(&addr(MAKER_B)).is_none());
    assert!(bank.ledger.account(&addr(VAULT)).is_none());
    assert!(bank.escrows.get(&escrow_of(7)).is_none());
}

#[test]
fn take_then_refund_not_found() {
    let mut bank = funded();
    assert_eq!(make(&make_ctx(7), &mut bank, 7, 100, 50), Ok(()));
    assert_eq!(take(&take_ctx(7), &mut bank), Ok(()));
    assert_eq!(refund(&refund_ctx(7), &mut bank), Err(VaultError::NotFound));
    assert_eq!(take(&take_ctx(7), &mut bank), Err(VaultError::NotFound));
}

#[test]
fn refund_then_take_not_found() {
    let mut bank = funded();
    assert_eq!(make(&make_ctx(7), &mut bank, 7, 100, 50), Ok(()));
    assert_eq!(refund(&refund_ctx(7), &mut bank), Ok(()));
    assert_eq!(take(&take_ctx(7), &mut bank), Err(VaultError::NotFound));
    assert_eq!(refund(&refund_ctx(7), &mut bank), Err(VaultError::NotFound));
    assert_eq!(balance(&bank, &addr(TAKER_B)), Some(1000));
}

#[test]
fn take_with_wrong_mint_mismatch() {
    let mut bank = funded();
    assert_eq!(make(&make_ctx(7), &mut bank, 7, 100, 50), Ok(()));
    let mut ctx = take_ctx(7);
    ctx.mint_b = addr(44);
    assert_eq!(take(&ctx, &mut bank), Err(VaultError::AccountMismatch));
    let mut ctx = take_ctx(7);
    ctx.mint_a = addr(43);
    assert_eq!(take(&ctx, &mut bank), Err(VaultError::AccountMismatch));
    assert_eq!(balance(&bank, &addr(TAKER_B)), Some(1000));
    assert_eq!(balance(&bank, &addr(VAULT)), Some(50));
    assert!(bank.ledger.account(&addr(MAKER_B)).is_none());
    assert!(bank.escrows.get(&escrow_of(7)).is_some());
}

#[test]
fn take_without_enough_b_rolls_back() {
    let mut bank = funded();
    assert_eq!(make(&make_ctx(7), &mut bank, 7, 1001, 50), Ok(()));
    assert_eq!(take(&take_ctx(7), &mut bank), Err(VaultError::InsufficientFunds));
    assert_eq!(balance(&bank, &addr(TAKER_B)), Some(1000));
    assert_eq!(balance(&bank, &addr(VAULT)), Some(50));
    assert!(bank.ledger.account(&addr(MAKER_B)).is_none());
    assert!(bank.ledger.account(&addr(TAKER_A)).is_none());
    assert!(bank.escrows.get(&escrow_of(7)).is_some());
}

#[test]
fn take_leg_two_failure_rolls_back_leg_one() {
    let mut bank = funded();
    assert_eq!(make(&make_ctx(7), &mut bank, 7, 100, 50), Ok(()));
    // the taker's asset-A account exists but belongs to someone else
    bank.ledger
        .create(
            addr(TAKER_A),
            Holding { asset: Asset::Token(addr(MINT_A)), authority: addr(77), amount: 0 },
        )
        .unwrap();
    assert_eq!(take(&take_ctx(7), &mut bank), Err(VaultError::AccountMismatch));
    assert_eq!(balance(&bank, &addr(TAKER_B)), Some(1000));
    assert!(bank.ledger.account(&addr(MAKER_B)).is_none());
    assert_eq!(balance(&bank, &addr(VAULT)), Some(50));
}

#[test]
fn refund_by_other_maker_mismatch() {
    let mut bank = funded();
    assert_eq!(make(&make_ctx(7), &mut bank, 7, 100, 50), Ok(()));
    let mut ctx = refund_ctx(7);
    ctx.maker = addr(TAKER);
    assert_eq!(refund(&ctx, &mut bank), Err(VaultError::AccountMismatch));
    assert_eq!(balance(&bank, &addr(VAULT)), Some(50));
}
