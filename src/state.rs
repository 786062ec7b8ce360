use crate::address::Address;
use crate::error::VaultError;
use crate::ledger::{Holding, Ledger};
use crate::table::Table;
use vstd::prelude::*;

verus! {

/// The record of one owner's vault: the bumps of its two derived addresses.
#[derive(Clone, Copy, Debug)]
pub struct VaultState {
    pub vault_bump: u8,
    pub state_bump: u8,
}

/// One open offer: the maker gives tokens of `mint_a` and asks `receive_amount` of `mint_b`.
#[derive(Clone, Copy, Debug)]
pub struct EscrowState {
    pub seed: u64,
    pub maker: Address,
    pub mint_a: Address,
    pub mint_b: Address,
    pub receive_amount: u64,
    pub bump: u8,
}

/// Everything an instruction reads or changes: the ledger's accounts and the program's
/// records, each keyed by its address.
pub struct Bank {
    pub program_id: Address,
    pub ledger: Ledger,
    pub vault_states: Table<VaultState>,
    pub escrows: Table<EscrowState>,
}

/// What a bank stands for: its program id and three maps keyed by address.
pub struct BankView {
    pub program_id: Address,
    pub ledger: Map<Address, Holding>,
    pub vault_states: Map<Address, VaultState>,
    pub escrows: Map<Address, EscrowState>,
}

/// `b` with its ledger replaced.
pub open spec fn with_ledger(b: BankView, ledger: Map<Address, Holding>) -> BankView {
    BankView { ledger, ..b }
}

/// How an instruction's result and the bank after it relate to its outcome: on success
/// the bank is the outcome's, on failure the error is the outcome's and the bank is as
/// it was.
pub open spec fn settles(
    outcome: Result<BankView, VaultError>,
    r: Result<(), VaultError>,
    before: BankView,
    after: BankView,
) -> bool {
    match outcome {
        Ok(v) => r is Ok && after == v,
        Err(e) => r == Err::<(), VaultError>(e) && after == before,
    }
}

impl Bank {
    pub open spec fn wf(&self) -> bool {
        self.ledger.wf() && self.vault_states.wf() && self.escrows.wf()
    }

    pub open spec fn view(&self) -> BankView {
        BankView {
            program_id: self.program_id,
            ledger: self.ledger@,
            vault_states: self.vault_states@,
            escrows: self.escrows@,
        }
    }

    /// A copy of the whole bank.
    pub fn duplicate(&self) -> (r: Bank)
        requires
            self.wf(),
        ensures
            r.wf(),
            r@ == self@,
    {
        let ledger = self.ledger.duplicate();
        let vault_states = self.vault_states.duplicate();
        let escrows = self.escrows.duplicate();
        Bank { program_id: self.program_id, ledger, vault_states, escrows }
    }

    /// A bank with no accounts and no records, for the program at `program_id`.
    pub fn new(program_id: Address) -> (r: Bank)
        ensures
            r.wf(),
            r@ == (BankView {
                program_id,
                ledger: Map::empty(),
                vault_states: Map::empty(),
                escrows: Map::empty(),
            }),
    {
        Bank {
            program_id,
            ledger: Ledger::new(),
            vault_states: Table::new(),
            escrows: Table::new(),
        }
    }
}

} // verus!
