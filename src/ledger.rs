use crate::address::Address;
use crate::error::VaultError;
use crate::table::Table;
use vstd::prelude::*;

verus! {

/// What an account holds: the native currency, or tokens of one mint.
#[derive(Clone, Copy, Debug)]
pub enum Asset {
    Native,
    Token(Address),
}

impl Asset {
    pub fn same(&self, other: &Asset) -> (r: bool)
        ensures
            r == (*self == *other),
    {
        match (self, other) {
            (Asset::Native, Asset::Native) => true,
            (Asset::Token(a), Asset::Token(b)) => a.same(b),
            _ => false,
        }
    }
}

/// One account of the ledger: its asset, the authority that may debit it, its balance.
#[derive(Clone, Copy, Debug)]
pub struct Holding {
    pub asset: Asset,
    pub authority: Address,
    pub amount: u64,
}

/// The accounts of the host ledger, keyed by address.
pub struct Ledger {
    pub accounts: Table<Holding>,
}

/// `h` with its balance replaced.
pub open spec fn with_amount(h: Holding, amount: u64) -> Holding {
    Holding { asset: h.asset, authority: h.authority, amount }
}

/// A transfer of `amount` of `asset` from `from` to `to`, signed by `signer`.
pub open spec fn transfer_spec(
    m: Map<Address, Holding>,
    from: Address,
    to: Address,
    asset: Asset,
    amount: u64,
    signer: Address,
) -> Result<Map<Address, Holding>, VaultError> {
    if !m.contains_key(from) || !m.contains_key(to) {
        Err(VaultError::NotFound)
    } else if m[from].asset != asset || m[to].asset != asset {
        Err(VaultError::AccountMismatch)
    } else if m[from].authority != signer {
        Err(VaultError::AuthorityInvalid)
    } else if m[from].amount < amount {
        Err(VaultError::InsufficientFunds)
    } else if from == to {
        Ok(m)
    } else if m[to].amount + amount > u64::MAX {
        Err(VaultError::Overflow)
    } else {
        Ok(
            m.insert(from, with_amount(m[from], (m[from].amount - amount) as u64)).insert(
                to,
                with_amount(m[to], (m[to].amount + amount) as u64),
            ),
        )
    }
}

/// `after` is `before` with `amount` moved from `from` to `to`: the same accounts, the
/// same assets and authorities, and every other balance as it was.
pub open spec fn pays(
    before: Map<Address, Holding>,
    after: Map<Address, Holding>,
    from: Address,
    to: Address,
    amount: u64,
) -> bool {
    &&& after.dom() == before.dom()
    &&& after[from] == with_amount(before[from], (before[from].amount - amount) as u64)
    &&& after[to] == with_amount(before[to], (before[to].amount + amount) as u64)
    &&& forall|a: Address|
        a != from && a != to && #[trigger] before.contains_key(a) ==> after[a] == before[a]
}

/// Closing `account`, signed by `signer`: only an empty account can be closed.
pub open spec fn close_account_spec(m: Map<Address, Holding>, account: Address, signer: Address) -> Result<
    Map<Address, Holding>,
    VaultError,
> {
    if !m.contains_key(account) {
        Err(VaultError::NotFound)
    } else if m[account].authority != signer {
        Err(VaultError::AuthorityInvalid)
    } else if m[account].amount != 0 {
        Err(VaultError::NonEmptyAccount)
    } else {
        Ok(m.remove(account))
    }
}

impl Ledger {
    pub open spec fn wf(&self) -> bool {
        self.accounts.wf()
    }

    pub open spec fn view(&self) -> Map<Address, Holding> {
        self.accounts@
    }

    pub fn new() -> (r: Ledger)
        ensures
            r.wf(),
            r@ == Map::<Address, Holding>::empty(),
    {
        Ledger { accounts: Table::new() }
    }

    pub fn duplicate(&self) -> (r: Ledger)
        ensures
            r.accounts.rows@ == self.accounts.rows@,
            r@ == self@,
    {
        Ledger { accounts: self.accounts.duplicate() }
    }

    /// The account at `address`, if there is one.
    pub fn account(&self, address: &Address) -> (r: Option<Holding>)
        requires
            self.wf(),
        ensures
            r == (if self@.contains_key(*address) {
                Some(self@[*address])
            } else {
                None::<Holding>
            }),
    {
        self.accounts.get(address)
    }

    /// Adds an account; fails where the address is taken.
    pub fn create(&mut self, address: Address, holding: Holding) -> (r: Result<(), VaultError>)
        requires
            old(self).wf(),
        ensures
            final(self).wf(),
            r is Ok <==> !old(self)@.contains_key(address),
            r is Ok ==> final(self)@ == old(self)@.insert(address, holding),
            r is Err ==> r == Err::<(), VaultError>(VaultError::AlreadyExists) && final(self)@
                == old(self)@,
    {
        match self.accounts.find(&address) {
            Some(_) => Err(VaultError::AlreadyExists),
            None => {
                self.accounts.insert(address, holding);
                Ok(())
            },
        }
    }

    /// Moves `amount` of `asset` from `from` to `to` on the authority of `signer`.
    pub fn transfer(
        &mut self,
        from: &Address,
        to: &Address,
        asset: &Asset,
        amount: u64,
        signer: &Address,
    ) -> (r: Result<(), VaultError>)
        requires
            old(self).wf(),
        ensures
            final(self).wf(),
            match transfer_spec(old(self)@, *from, *to, *asset, amount, *signer) {
                Ok(m) => r is Ok && final(self)@ == m,
                Err(e) => r == Err::<(), VaultError>(e) && final(self)@ == old(self)@,
            },
    {
        let i = match self.accounts.find(from) {
            Some(i) => i,
            None => return Err(VaultError::NotFound),
        };
        let j = match self.accounts.find(to) {
            Some(j) => j,
            None => return Err(VaultError::NotFound),
        };
        let src = self.accounts.rows[i].1;
        let dst = self.accounts.rows[j].1;
        if !src.asset.same(asset) || !dst.asset.same(asset) {
            return Err(VaultError::AccountMismatch);
        }
        if !src.authority.same(signer) {
            return Err(VaultError::AuthorityInvalid);
        }
        if src.amount < amount {
            return Err(VaultError::InsufficientFunds);
        }
        if i == j {
            return Ok(());
        }
        assert(self.accounts.rows@[i as int].0 != self.accounts.rows@[j as int].0);
        if dst.amount > u64::MAX - amount {
            return Err(VaultError::Overflow);
        }
        self.accounts.set(i, Holding { asset: src.asset, authority: src.authority, amount: src.amount - amount });
        self.accounts.set(j, Holding { asset: dst.asset, authority: dst.authority, amount: dst.amount + amount });
        Ok(())
    }

    /// Removes an empty `account` on the authority of `signer`.
    pub fn close_account(&mut self, account: &Address, signer: &Address) -> (r: Result<(), VaultError>)
        requires
            old(self).wf(),
        ensures
            final(self).wf(),
            match close_account_spec(old(self)@, *account, *signer) {
                Ok(m) => r is Ok && final(self)@ == m,
                Err(e) => r == Err::<(), VaultError>(e) && final(self)@ == old(self)@,
            },
    {
        let i = match self.accounts.find(account) {
            Some(i) => i,
            None => return Err(VaultError::NotFound),
        };
        let h = self.accounts.rows[i].1;
        if !h.authority.same(signer) {
            return Err(VaultError::AuthorityInvalid);
        }
        if h.amount != 0 {
            return Err(VaultError::NonEmptyAccount);
        }
        self.accounts.remove(i);
        Ok(())
    }
}

} // verus!
