pub mod address;
pub mod error;
pub mod escrow;
pub mod ledger;
pub mod state;
pub mod table;
pub mod vault;

use crate::error::VaultError;
use crate::escrow::{make_spec, refund_spec, take_spec, Make, Refund, Take};
use crate::state::{settles, Bank};
use crate::vault::{
    close_vault_spec, deposit_spec, initialize_spec, withdraw_spec, Close, Deposit, Initialize,
    Withdraw,
};
use vstd::prelude::*;

verus! {

/// Opens the vault of `ctx.signer`.
pub fn initialize(ctx: &Initialize, bank: &mut Bank) -> (r: Result<(), VaultError>)
    requires
        old(bank).wf(),
    ensures
        final(bank).wf(),
        settles(
            initialize_spec(old(bank)@, ctx.signer, ctx.vault_state, ctx.vault),
            r,
            old(bank)@,
            final(bank)@,
        ),
{
    ctx.initialize(bank)
}

/// Puts `amount` of native value into the owner's vault.
pub fn deposit(ctx: &Deposit, bank: &mut Bank, amount: u64) -> (r: Result<(), VaultError>)
    requires
        old(bank).wf(),
    ensures
        final(bank).wf(),
        settles(
            deposit_spec(old(bank)@, ctx.signer, ctx.vault_state, ctx.vault, amount),
            r,
            old(bank)@,
            final(bank)@,
        ),
{
    ctx.deposit(bank, amount)
}

/// Takes `amount` of native value out of the owner's vault.
pub fn withdraw(ctx: &Withdraw, bank: &mut Bank, amount: u64) -> (r: Result<(), VaultError>)
    requires
        old(bank).wf(),
    ensures
        final(bank).wf(),
        settles(
            withdraw_spec(old(bank)@, ctx.signer, ctx.vault_state, ctx.vault, amount),
            r,
            old(bank)@,
            final(bank)@,
        ),
{
    ctx.withdraw(bank, amount)
}

/// Removes the owner's vault record.
pub fn close(ctx: &Close, bank: &mut Bank) -> (r: Result<(), VaultError>)
    requires
        old(bank).wf(),
    ensures
        final(bank).wf(),
        settles(
            close_vault_spec(old(bank)@, ctx.signer, ctx.vault_state, ctx.vault),
            r,
            old(bank)@,
            final(bank)@,
        ),
{
    ctx.close(bank)
}

/// Opens an offer and locks `deposit_amount` of asset A in its vault; both or neither.
pub fn make(ctx: &Make, bank: &mut Bank, seed: u64, receive_amount: u64, deposit_amount: u64) -> (r:
    Result<(), VaultError>)
    requires
        old(bank).wf(),
    ensures
        final(bank).wf(),
        settles(
            make_spec(old(bank)@, *ctx, seed, receive_amount, deposit_amount),
            r,
            old(bank)@,
            final(bank)@,
        ),
{
    let mut next = bank.duplicate();
    ctx.init_escrow_state(&mut next, seed, receive_amount)?;
    ctx.deposit(&mut next, deposit_amount)?;
    *bank = next;
    Ok(())
}

/// Fulfils an offer: the taker pays asset B to the maker and receives the vault's asset A,
/// and the record and the vault are gone; both legs or neither.
pub fn take(ctx: &Take, bank: &mut Bank) -> (r: Result<(), VaultError>)
    requires
        old(bank).wf(),
    ensures
        final(bank).wf(),
        settles(take_spec(old(bank)@, *ctx), r, old(bank)@, final(bank)@),
{
    let mut next = bank.duplicate();
    ctx.deposit(&mut next)?;
    ctx.withdraw_and_close_vault(&mut next)?;
    *bank = next;
    Ok(())
}

/// Cancels an offer: the maker gets the vault's asset A back, and the record and the vault
/// are gone; both steps or neither.
pub fn refund(ctx: &Refund, bank: &mut Bank) -> (r: Result<(), VaultError>)
    requires
        old(bank).wf(),
    ensures
        final(bank).wf(),
        settles(refund_spec(old(bank)@, *ctx), r, old(bank)@, final(bank)@),
{
    let mut next = bank.duplicate();
    ctx.withdraw(&mut next)?;
    ctx.close(&mut next)?;
    *bank = next;
    Ok(())
}

} // verus!
