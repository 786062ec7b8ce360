use crate::address::{
    bump_search_of, derives, make_state_seeds, make_vault_seeds, state_seeds, vault_seeds,
    verify, Address,
};
use crate::error::VaultError;
use crate::ledger::{pays, transfer_spec, Asset, Holding};
use crate::state::{settles, with_ledger, Bank, BankView, VaultState};
use vstd::prelude::*;

verus! {

/// Accounts of `initialize`: the owner, and the two addresses it claims for its record
/// and its vault.
#[derive(Clone, Copy, Debug)]
pub struct Initialize {
    pub signer: Address,
    pub vault_state: Address,
    pub vault: Address,
}

/// Accounts of `deposit`.
#[derive(Clone, Copy, Debug)]
pub struct Deposit {
    pub signer: Address,
    pub vault_state: Address,
    pub vault: Address,
}

/// Accounts of `withdraw`.
#[derive(Clone, Copy, Debug)]
pub struct Withdraw {
    pub signer: Address,
    pub vault_state: Address,
    pub vault: Address,
}

/// Accounts of `close`.
#[derive(Clone, Copy, Debug)]
pub struct Close {
    pub signer: Address,
    pub vault_state: Address,
    pub vault: Address,
}

/// The native account that a fresh vault starts as: empty, and debited only by itself.
pub open spec fn empty_vault(vault: Address) -> Holding {
    Holding { asset: Asset::Native, authority: vault, amount: 0 }
}

/// `b` with its vault records replaced.
pub open spec fn with_vault_states(b: BankView, vault_states: Map<Address, VaultState>) -> BankView {
    BankView { vault_states, ..b }
}

/// The bump of a successful search.
pub open spec fn bump_of(found: Option<(Seq<u8>, u8)>) -> u8 {
    match found {
        Some((_, b)) => b,
        None => 0,
    }
}

/// Opening a vault for `signer` at the canonical derived addresses.
pub open spec fn initialize_spec(b: BankView, signer: Address, state: Address, vault: Address) -> Result<
    BankView,
    VaultError,
> {
    let fs = bump_search_of(state_seeds(signer), b.program_id@);
    let fv = bump_search_of(vault_seeds(state), b.program_id@);
    if !(fs matches Some((a, _)) && a == state@) || !(fv matches Some((a, _)) && a == vault@) {
        Err(VaultError::AccountMismatch)
    } else if b.vault_states.contains_key(state) {
        Err(VaultError::AlreadyExists)
    } else if b.ledger.contains_key(vault) && (b.ledger[vault].asset != Asset::Native
        || b.ledger[vault].authority != vault) {
        Err(VaultError::AccountMismatch)
    } else {
        let rec = VaultState { vault_bump: bump_of(fv), state_bump: bump_of(fs) };
        let ledger = if b.ledger.contains_key(vault) {
            b.ledger
        } else {
            b.ledger.insert(vault, empty_vault(vault))
        };
        Ok(BankView { ledger, vault_states: b.vault_states.insert(state, rec), ..b })
    }
}

/// The record at `state`, where `state` and `vault` are `signer`'s addresses derived
/// with its stored bumps.
pub open spec fn vault_check_spec(b: BankView, signer: Address, state: Address, vault: Address) -> Result<
    VaultState,
    VaultError,
> {
    if !b.vault_states.contains_key(state) {
        Err(VaultError::NotFound)
    } else if !derives(state, state_seeds(signer), b.vault_states[state].state_bump, b.program_id)
        || !derives(vault, vault_seeds(state), b.vault_states[state].vault_bump, b.program_id) {
        Err(VaultError::AccountMismatch)
    } else {
        Ok(b.vault_states[state])
    }
}

/// Moving `amount` of native value from the owner into the vault.
pub open spec fn deposit_spec(
    b: BankView,
    signer: Address,
    state: Address,
    vault: Address,
    amount: u64,
) -> Result<BankView, VaultError> {
    match vault_check_spec(b, signer, state, vault) {
        Err(e) => Err(e),
        Ok(_) => match transfer_spec(b.ledger, signer, vault, Asset::Native, amount, signer) {
            Err(e) => Err(e),
            Ok(m) => Ok(with_ledger(b, m)),
        },
    }
}

/// Moving `amount` of native value from the vault back to its owner, signed by the vault's
/// derived address.
pub open spec fn withdraw_spec(
    b: BankView,
    signer: Address,
    state: Address,
    vault: Address,
    amount: u64,
) -> Result<BankView, VaultError> {
    match vault_check_spec(b, signer, state, vault) {
        Err(e) => Err(e),
        Ok(_) => match transfer_spec(b.ledger, vault, signer, Asset::Native, amount, vault) {
            Err(e) => Err(e),
            Ok(m) => Ok(with_ledger(b, m)),
        },
    }
}

/// Removing the vault record. The vault account and its balance stay on the ledger.
pub open spec fn close_vault_spec(b: BankView, signer: Address, state: Address, vault: Address) -> Result<
    BankView,
    VaultError,
> {
    match vault_check_spec(b, signer, state, vault) {
        Err(e) => Err(e),
        Ok(_) => Ok(with_vault_states(b, b.vault_states.remove(state))),
    }
}

/// Reads the record at `state` and checks both addresses against its stored bumps.
fn check_vault_accounts(bank: &Bank, signer: &Address, state: &Address, vault: &Address) -> (r: Result<
    VaultState,
    VaultError,
>)
    requires
        bank.wf(),
    ensures
        r == vault_check_spec(bank@, *signer, *state, *vault),
{
    let rec = match bank.vault_states.get(state) {
        Some(rec) => rec,
        None => return Err(VaultError::NotFound),
    };
    if !verify(state, make_state_seeds(signer), rec.state_bump, &bank.program_id) {
        return Err(VaultError::AccountMismatch);
    }
    if !verify(vault, make_vault_seeds(state), rec.vault_bump, &bank.program_id) {
        return Err(VaultError::AccountMismatch);
    }
    Ok(rec)
}

impl Initialize {
    /// Creates the owner's record, and its empty vault where the vault has no account yet.
    pub fn initialize(&self, bank: &mut Bank) -> (r: Result<(), VaultError>)
        requires
            old(bank).wf(),
        ensures
            final(bank).wf(),
            settles(
                initialize_spec(old(bank)@, self.signer, self.vault_state, self.vault),
                r,
                old(bank)@,
                final(bank)@,
            ),
    {
        let (state_addr, state_bump) = match crate::address::derive(&make_state_seeds(&self.signer), &bank.program_id) {
            Some(found) => found,
            None => return Err(VaultError::AccountMismatch),
        };
        if !state_addr.same(&self.vault_state) {
            return Err(VaultError::AccountMismatch);
        }
        let (vault_addr, vault_bump) = match crate::address::derive(&make_vault_seeds(&self.vault_state), &bank.program_id) {
            Some(found) => found,
            None => return Err(VaultError::AccountMismatch),
        };
        if !vault_addr.same(&self.vault) {
            return Err(VaultError::AccountMismatch);
        }
        if bank.vault_states.find(&self.vault_state).is_some() {
            return Err(VaultError::AlreadyExists);
        }
        match bank.ledger.account(&self.vault) {
            Some(h) => {
                if !h.asset.same(&Asset::Native) || !h.authority.same(&self.vault) {
                    return Err(VaultError::AccountMismatch);
                }
            },
            None => {
                let _ = bank.ledger.create(
                    self.vault,
                    Holding { asset: Asset::Native, authority: self.vault, amount: 0 },
                );
            },
        }
        bank.vault_states.insert(self.vault_state, VaultState { vault_bump, state_bump });
        Ok(())
    }
}

impl Deposit {
    /// Moves `amount` from the owner's native account into the vault, signed by the owner.
    pub fn deposit(&self, bank: &mut Bank, amount: u64) -> (r: Result<(), VaultError>)
        requires
            old(bank).wf(),
        ensures
            final(bank).wf(),
            settles(
                deposit_spec(old(bank)@, self.signer, self.vault_state, self.vault, amount),
                r,
                old(bank)@,
                final(bank)@,
            ),
    {
        check_vault_accounts(bank, &self.signer, &self.vault_state, &self.vault)?;
        bank.ledger.transfer(&self.signer, &self.vault, &Asset::Native, amount, &self.signer)
    }
}

impl Withdraw {
    /// Moves `amount` from the vault to the owner, signed by the vault's re-derived address.
    /// An amount above the vault's balance fails with `InsufficientFunds`.
    pub fn withdraw(&self, bank: &mut Bank, amount: u64) -> (r: Result<(), VaultError>)
        requires
            old(bank).wf(),
        ensures
            final(bank).wf(),
            settles(
                withdraw_spec(old(bank)@, self.signer, self.vault_state, self.vault, amount),
                r,
                old(bank)@,
                final(bank)@,
            ),
    {
        check_vault_accounts(bank, &self.signer, &self.vault_state, &self.vault)?;
        bank.ledger.transfer(&self.vault, &self.signer, &Asset::Native, amount, &self.vault)
    }
}

impl Close {
    /// Removes the owner's record. Whatever the vault still holds stays in the vault
    /// account, which no record derives any more: withdraw first.
    pub fn close(&self, bank: &mut Bank) -> (r: Result<(), VaultError>)
        requires
            old(bank).wf(),
        ensures
            final(bank).wf(),
            settles(
                close_vault_spec(old(bank)@, self.signer, self.vault_state, self.vault),
                r,
                old(bank)@,
                final(bank)@,
            ),
    {
        check_vault_accounts(bank, &self.signer, &self.vault_state, &self.vault)?;
        let i = match bank.vault_states.find(&self.vault_state) {
            Some(i) => i,
            None => return Err(VaultError::NotFound),
        };
        bank.vault_states.remove(i);
        Ok(())
    }
}

} // verus!

verus! {

/// A withdrawal of at most the vault's balance, by the vault's owner, moves exactly that
/// amount from the vault to the owner and touches no other account and no record; one of
/// more than the balance fails with `InsufficientFunds` and changes nothing.
pub proof fn withdraw_moves_exactly(
    b: BankView,
    signer: Address,
    state: Address,
    vault: Address,
    amount: u64,
)
    requires
        vault_check_spec(b, signer, state, vault) is Ok,
        b.ledger.contains_key(vault),
        b.ledger.contains_key(signer),
        signer != vault,
        b.ledger[vault].asset == Asset::Native,
        b.ledger[vault].authority == vault,
        b.ledger[signer].asset == Asset::Native,
        b.ledger[signer].amount + amount <= u64::MAX,
    ensures
        amount <= b.ledger[vault].amount ==> (withdraw_spec(b, signer, state, vault, amount) matches Ok(
            after,
        ) && pays(b.ledger, after.ledger, vault, signer, amount) && after.vault_states
            == b.vault_states && after.escrows == b.escrows),
        amount > b.ledger[vault].amount ==> withdraw_spec(b, signer, state, vault, amount) == Err::<
            BankView,
            VaultError,
        >(VaultError::InsufficientFunds),
{
    if amount <= b.ledger[vault].amount {
        let after = withdraw_spec(b, signer, state, vault, amount)->Ok_0;
        assert(after.ledger.dom() =~= b.ledger.dom());
    }
}

} // verus!
