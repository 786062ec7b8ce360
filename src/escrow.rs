use crate::address::{bump_search_of, derives, escrow_seeds, make_escrow_seeds, verify, Address};
use crate::error::VaultError;
use crate::ledger::{close_account_spec, transfer_spec, Asset, Holding, Ledger};
use crate::state::{settles, with_ledger, Bank, BankView, EscrowState};
use crate::vault::bump_of;
use vstd::prelude::*;

verus! {

/// Accounts of `make`.
#[derive(Clone, Copy, Debug)]
pub struct Make {
    pub maker: Address,
    pub mint_a: Address,
    pub mint_b: Address,
    pub maker_mint_a_ata: Address,
    pub escrow: Address,
    pub vault: Address,
}

/// Accounts of `take`.
#[derive(Clone, Copy, Debug)]
pub struct Take {
    pub taker: Address,
    pub maker: Address,
    pub mint_a: Address,
    pub mint_b: Address,
    pub taker_mint_a_ata: Address,
    pub taker_mint_b_ata: Address,
    pub maker_mint_b_ata: Address,
    pub escrow: Address,
    pub vault: Address,
}

/// Accounts of `refund`.
#[derive(Clone, Copy, Debug)]
pub struct Refund {
    pub maker: Address,
    pub mint_a: Address,
    pub mint_b: Address,
    pub maker_mint_a_ata: Address,
    pub escrow: Address,
    pub vault: Address,
}

/// A token account of `mint` that only `owner` may debit, still empty.
pub open spec fn empty_token_account(mint: Address, owner: Address) -> Holding {
    Holding { asset: Asset::Token(mint), authority: owner, amount: 0 }
}

/// Opens the record and its empty custody vault at the canonical escrow address.
pub open spec fn init_escrow_spec(b: BankView, c: Make, seed: u64, receive_amount: u64) -> Result<
    BankView,
    VaultError,
> {
    let found = bump_search_of(escrow_seeds(c.maker, seed), b.program_id@);
    if !(found matches Some((a, _)) && a == c.escrow@) {
        Err(VaultError::AccountMismatch)
    } else if b.escrows.contains_key(c.escrow) || b.ledger.contains_key(c.vault) {
        Err(VaultError::AlreadyExists)
    } else {
        let rec = EscrowState {
            seed,
            maker: c.maker,
            mint_a: c.mint_a,
            mint_b: c.mint_b,
            receive_amount,
            bump: bump_of(found),
        };
        Ok(
            BankView {
                ledger: b.ledger.insert(c.vault, empty_token_account(c.mint_a, c.escrow)),
                escrows: b.escrows.insert(c.escrow, rec),
                ..b
            },
        )
    }
}

/// The maker's deposit of `amount` of asset A into the vault.
pub open spec fn make_deposit_spec(b: BankView, c: Make, amount: u64) -> Result<BankView, VaultError> {
    match transfer_spec(
        b.ledger,
        c.maker_mint_a_ata,
        c.vault,
        Asset::Token(c.mint_a),
        amount,
        c.maker,
    ) {
        Err(e) => Err(e),
        Ok(m) => Ok(with_ledger(b, m)),
    }
}

/// The whole of `make`.
pub open spec fn make_spec(
    b: BankView,
    c: Make,
    seed: u64,
    receive_amount: u64,
    deposit_amount: u64,
) -> Result<BankView, VaultError> {
    match init_escrow_spec(b, c, seed, receive_amount) {
        Err(e) => Err(e),
        Ok(b1) => make_deposit_spec(b1, c, deposit_amount),
    }
}

/// The open record at `escrow`, where it names `maker` and `escrow` is derived from its
/// seed and stored bump.
pub open spec fn escrow_check_spec(b: BankView, escrow: Address, maker: Address) -> Result<
    EscrowState,
    VaultError,
> {
    if !b.escrows.contains_key(escrow) {
        Err(VaultError::NotFound)
    } else if b.escrows[escrow].maker != maker {
        Err(VaultError::AccountMismatch)
    } else if !derives(
        escrow,
        escrow_seeds(maker, b.escrows[escrow].seed),
        b.escrows[escrow].bump,
        b.program_id,
    ) {
        Err(VaultError::AccountMismatch)
    } else {
        Ok(b.escrows[escrow])
    }
}

/// The record that `take` works on: the escrow check, and both mints as stored.
pub open spec fn take_check_spec(b: BankView, c: Take) -> Result<EscrowState, VaultError> {
    match escrow_check_spec(b, c.escrow, c.maker) {
        Err(e) => Err(e),
        Ok(rec) => if rec.mint_a != c.mint_a || rec.mint_b != c.mint_b {
            Err(VaultError::AccountMismatch)
        } else {
            Ok(rec)
        },
    }
}

/// The balance of the custody vault, which holds `mint` under `escrow`'s authority.
pub open spec fn vault_balance_spec(m: Map<Address, Holding>, vault: Address, mint: Address, escrow: Address) -> Result<
    u64,
    VaultError,
> {
    if !m.contains_key(vault) {
        Err(VaultError::NotFound)
    } else if m[vault].asset != Asset::Token(mint) || m[vault].authority != escrow {
        Err(VaultError::AccountMismatch)
    } else {
        Ok(m[vault].amount)
    }
}

/// `account` as a token account of `mint` owned by `owner`, opened empty where absent.
pub open spec fn prepare_spec(m: Map<Address, Holding>, account: Address, mint: Address, owner: Address) -> Result<
    Map<Address, Holding>,
    VaultError,
> {
    if !m.contains_key(account) {
        Ok(m.insert(account, empty_token_account(mint, owner)))
    } else if m[account].asset != Asset::Token(mint) || m[account].authority != owner {
        Err(VaultError::AccountMismatch)
    } else {
        Ok(m)
    }
}

/// `account` exists as a token account of `mint` owned by `owner`.
pub open spec fn owned_spec(m: Map<Address, Holding>, account: Address, mint: Address, owner: Address) -> Result<
    (),
    VaultError,
> {
    if !m.contains_key(account) {
        Err(VaultError::NotFound)
    } else if m[account].asset != Asset::Token(mint) || m[account].authority != owner {
        Err(VaultError::AccountMismatch)
    } else {
        Ok(())
    }
}

/// First leg of `take`: the taker pays the asked amount of asset B to the maker.
pub open spec fn take_deposit_spec(b: BankView, c: Take) -> Result<BankView, VaultError> {
    match take_check_spec(b, c) {
        Err(e) => Err(e),
        Ok(rec) => match prepare_spec(b.ledger, c.maker_mint_b_ata, c.mint_b, c.maker) {
            Err(e) => Err(e),
            Ok(l1) => match transfer_spec(
                l1,
                c.taker_mint_b_ata,
                c.maker_mint_b_ata,
                Asset::Token(c.mint_b),
                rec.receive_amount,
                c.taker,
            ) {
                Err(e) => Err(e),
                Ok(l2) => Ok(with_ledger(b, l2)),
            },
        },
    }
}

/// Second leg of `take`: the whole vault goes to the taker, then the vault and the record
/// are gone.
pub open spec fn take_withdraw_spec(b: BankView, c: Take) -> Result<BankView, VaultError> {
    match take_check_spec(b, c) {
        Err(e) => Err(e),
        Ok(_) => match vault_balance_spec(b.ledger, c.vault, c.mint_a, c.escrow) {
            Err(e) => Err(e),
            Ok(amount) => match prepare_spec(b.ledger, c.taker_mint_a_ata, c.mint_a, c.taker) {
                Err(e) => Err(e),
                Ok(l1) => match transfer_spec(
                    l1,
                    c.vault,
                    c.taker_mint_a_ata,
                    Asset::Token(c.mint_a),
                    amount,
                    c.escrow,
                ) {
                    Err(e) => Err(e),
                    Ok(l2) => match close_account_spec(l2, c.vault, c.escrow) {
                        Err(e) => Err(e),
                        Ok(l3) => Ok(
                            BankView { ledger: l3, escrows: b.escrows.remove(c.escrow), ..b },
                        ),
                    },
                },
            },
        },
    }
}

/// The whole of `take`: both legs, or nothing.
pub open spec fn take_spec(b: BankView, c: Take) -> Result<BankView, VaultError> {
    match take_deposit_spec(b, c) {
        Err(e) => Err(e),
        Ok(b1) => take_withdraw_spec(b1, c),
    }
}

/// The record that `refund` works on: the escrow check, and asset A as stored.
pub open spec fn refund_check_spec(b: BankView, c: Refund) -> Result<EscrowState, VaultError> {
    match escrow_check_spec(b, c.escrow, c.maker) {
        Err(e) => Err(e),
        Ok(rec) => if rec.mint_a != c.mint_a {
            Err(VaultError::AccountMismatch)
        } else {
            Ok(rec)
        },
    }
}

/// First step of `refund`: the whole vault goes back to the maker.
pub open spec fn refund_withdraw_spec(b: BankView, c: Refund) -> Result<BankView, VaultError> {
    match refund_check_spec(b, c) {
        Err(e) => Err(e),
        Ok(_) => match vault_balance_spec(b.ledger, c.vault, c.mint_a, c.escrow) {
            Err(e) => Err(e),
            Ok(amount) => match owned_spec(b.ledger, c.maker_mint_a_ata, c.mint_a, c.maker) {
                Err(e) => Err(e),
                Ok(_) => match transfer_spec(
                    b.ledger,
                    c.vault,
                    c.maker_mint_a_ata,
                    Asset::Token(c.mint_a),
                    amount,
                    c.escrow,
                ) {
                    Err(e) => Err(e),
                    Ok(l1) => Ok(with_ledger(b, l1)),
                },
            },
        },
    }
}

/// Second step of `refund`: the vault account and the record are gone.
pub open spec fn refund_close_spec(b: BankView, c: Refund) -> Result<BankView, VaultError> {
    match refund_check_spec(b, c) {
        Err(e) => Err(e),
        Ok(_) => match close_account_spec(b.ledger, c.vault, c.escrow) {
            Err(e) => Err(e),
            Ok(l1) => Ok(BankView { ledger: l1, escrows: b.escrows.remove(c.escrow), ..b }),
        },
    }
}

/// The whole of `refund`: both steps, or nothing.
pub open spec fn refund_spec(b: BankView, c: Refund) -> Result<BankView, VaultError> {
    match refund_withdraw_spec(b, c) {
        Err(e) => Err(e),
        Ok(b1) => refund_close_spec(b1, c),
    }
}

fn check_escrow(bank: &Bank, escrow: &Address, maker: &Address) -> (r: Result<EscrowState, VaultError>)
    requires
        bank.wf(),
    ensures
        r == escrow_check_spec(bank@, *escrow, *maker),
{
    let rec = match bank.escrows.get(escrow) {
        Some(rec) => rec,
        None => return Err(VaultError::NotFound),
    };
    if !rec.maker.same(maker) {
        return Err(VaultError::AccountMismatch);
    }
    if !verify(escrow, make_escrow_seeds(maker, rec.seed), rec.bump, &bank.program_id) {
        return Err(VaultError::AccountMismatch);
    }
    Ok(rec)
}

fn vault_balance(ledger: &Ledger, vault: &Address, mint: &Address, escrow: &Address) -> (r: Result<
    u64,
    VaultError,
>)
    requires
        ledger.wf(),
    ensures
        r == vault_balance_spec(ledger@, *vault, *mint, *escrow),
{
    match ledger.account(vault) {
        None => Err(VaultError::NotFound),
        Some(h) => {
            if !h.asset.same(&Asset::Token(*mint)) || !h.authority.same(escrow) {
                Err(VaultError::AccountMismatch)
            } else {
                Ok(h.amount)
            }
        },
    }
}

fn prepare(ledger: &mut Ledger, account: &Address, mint: &Address, owner: &Address) -> (r: Result<
    (),
    VaultError,
>)
    requires
        old(ledger).wf(),
    ensures
        final(ledger).wf(),
        match prepare_spec(old(ledger)@, *account, *mint, *owner) {
            Ok(m) => r is Ok && final(ledger)@ == m,
            Err(e) => r == Err::<(), VaultError>(e) && final(ledger)@ == old(ledger)@,
        },
{
    match ledger.account(account) {
        None => {
            let _ = ledger.create(
                *account,
                Holding { asset: Asset::Token(*mint), authority: *owner, amount: 0 },
            );
            Ok(())
        },
        Some(h) => {
            if !h.asset.same(&Asset::Token(*mint)) || !h.authority.same(owner) {
                Err(VaultError::AccountMismatch)
            } else {
                Ok(())
            }
        },
    }
}

fn check_owned(ledger: &Ledger, account: &Address, mint: &Address, owner: &Address) -> (r: Result<
    (),
    VaultError,
>)
    requires
        ledger.wf(),
    ensures
        r == owned_spec(ledger@, *account, *mint, *owner),
{
    match ledger.account(account) {
        None => Err(VaultError::NotFound),
        Some(h) => {
            if !h.asset.same(&Asset::Token(*mint)) || !h.authority.same(owner) {
                Err(VaultError::AccountMismatch)
            } else {
                Ok(())
            }
        },
    }
}

impl Make {
    /// Opens the record at the canonical escrow address of (maker, seed), and the empty
    /// custody vault that the escrow address alone may debit.
    pub fn init_escrow_state(&self, bank: &mut Bank, seed: u64, receive_amount: u64) -> (r: Result<
        (),
        VaultError,
    >)
        requires
            old(bank).wf(),
        ensures
            final(bank).wf(),
            settles(
                init_escrow_spec(old(bank)@, *self, seed, receive_amount),
                r,
                old(bank)@,
                final(bank)@,
            ),
    {
        let (addr, bump) = match crate::address::derive(
            &make_escrow_seeds(&self.maker, seed),
            &bank.program_id,
        ) {
            Some(found) => found,
            None => return Err(VaultError::AccountMismatch),
        };
        if !addr.same(&self.escrow) {
            return Err(VaultError::AccountMismatch);
        }
        if bank.escrows.find(&self.escrow).is_some() {
            return Err(VaultError::AlreadyExists);
        }
        if bank.ledger.account(&self.vault).is_some() {
            return Err(VaultError::AlreadyExists);
        }
        let _ = bank.ledger.create(
            self.vault,
            Holding { asset: Asset::Token(self.mint_a), authority: self.escrow, amount: 0 },
        );
        bank.escrows.insert(
            self.escrow,
            EscrowState {
                seed,
                maker: self.maker,
                mint_a: self.mint_a,
                mint_b: self.mint_b,
                receive_amount,
                bump,
            },
        );
        Ok(())
    }

    /// Moves `amount` of asset A from the maker's account into the vault, signed by the maker.
    pub fn deposit(&self, bank: &mut Bank, amount: u64) -> (r: Result<(), VaultError>)
        requires
            old(bank).wf(),
        ensures
            final(bank).wf(),
            settles(make_deposit_spec(old(bank)@, *self, amount), r, old(bank)@, final(bank)@),
    {
        bank.ledger.transfer(
            &self.maker_mint_a_ata,
            &self.vault,
            &Asset::Token(self.mint_a),
            amount,
            &self.maker,
        )
    }
}

impl Take {
    fn check(&self, bank: &Bank) -> (r: Result<EscrowState, VaultError>)
        requires
            bank.wf(),
        ensures
            r == take_check_spec(bank@, *self),
    {
        let rec = check_escrow(bank, &self.escrow, &self.maker)?;
        if !rec.mint_a.same(&self.mint_a) || !rec.mint_b.same(&self.mint_b) {
            return Err(VaultError::AccountMismatch);
        }
        Ok(rec)
    }

    /// Pays the stored receive amount of asset B from the taker to the maker, signed by the
    /// taker; opens the maker's asset-B account where it has none.
    pub fn deposit(&self, bank: &mut Bank) -> (r: Result<(), VaultError>)
        requires
            old(bank).wf(),
        ensures
            final(bank).wf(),
            settles(take_deposit_spec(old(bank)@, *self), r, old(bank)@, final(bank)@),
    {
        let rec = self.check(bank)?;
        let mut ledger = bank.ledger.duplicate();
        prepare(&mut ledger, &self.maker_mint_b_ata, &self.mint_b, &self.maker)?;
        ledger.transfer(
            &self.taker_mint_b_ata,
            &self.maker_mint_b_ata,
            &Asset::Token(self.mint_b),
            rec.receive_amount,
            &self.taker,
        )?;
        bank.ledger = ledger;
        Ok(())
    }

    /// Moves the vault's whole balance of asset A to the taker, signed by the re-derived
    /// escrow address; then closes the vault and drops the record.
    pub fn withdraw_and_close_vault(&self, bank: &mut Bank) -> (r: Result<(), VaultError>)
        requires
            old(bank).wf(),
        ensures
            final(bank).wf(),
            settles(take_withdraw_spec(old(bank)@, *self), r, old(bank)@, final(bank)@),
    {
        self.check(bank)?;
        let amount = vault_balance(&bank.ledger, &self.vault, &self.mint_a, &self.escrow)?;
        let mut ledger = bank.ledger.duplicate();
        prepare(&mut ledger, &self.taker_mint_a_ata, &self.mint_a, &self.taker)?;
        ledger.transfer(
            &self.vault,
            &self.taker_mint_a_ata,
            &Asset::Token(self.mint_a),
            amount,
            &self.escrow,
        )?;
        ledger.close_account(&self.vault, &self.escrow)?;
        let i = match bank.escrows.find(&self.escrow) {
            Some(i) => i,
            None => return Err(VaultError::NotFound),
        };
        bank.escrows.remove(i);
        bank.ledger = ledger;
        Ok(())
    }
}

impl Refund {
    fn check(&self, bank: &Bank) -> (r: Result<EscrowState, VaultError>)
        requires
            bank.wf(),
        ensures
            r == refund_check_spec(bank@, *self),
    {
        let rec = check_escrow(bank, &self.escrow, &self.maker)?;
        if !rec.mint_a.same(&self.mint_a) {
            return Err(VaultError::AccountMismatch);
        }
        Ok(rec)
    }

    /// Moves the vault's whole balance of asset A back to the maker, signed by the
    /// re-derived escrow address.
    pub fn withdraw(&self, bank: &mut Bank) -> (r: Result<(), VaultError>)
        requires
            old(bank).wf(),
        ensures
            final(bank).wf(),
            settles(refund_withdraw_spec(old(bank)@, *self), r, old(bank)@, final(bank)@),
    {
        self.check(bank)?;
        let amount = vault_balance(&bank.ledger, &self.vault, &self.mint_a, &self.escrow)?;
        check_owned(&bank.ledger, &self.maker_mint_a_ata, &self.mint_a, &self.maker)?;
        bank.ledger.transfer(
            &self.vault,
            &self.maker_mint_a_ata,
            &Asset::Token(self.mint_a),
            amount,
            &self.escrow,
        )
    }

    /// Closes the emptied vault, signed by the re-derived escrow address, and drops the
    /// record.
    pub fn close(&self, bank: &mut Bank) -> (r: Result<(), VaultError>)
        requires
            old(bank).wf(),
        ensures
            final(bank).wf(),
            settles(refund_close_spec(old(bank)@, *self), r, old(bank)@, final(bank)@),
    {
        self.check(bank)?;
        let i = match bank.escrows.find(&self.escrow) {
            Some(i) => i,
            None => return Err(VaultError::NotFound),
        };
        bank.ledger.close_account(&self.vault, &self.escrow)?;
        bank.escrows.remove(i);
        Ok(())
    }
}

} // verus!

verus! {

/// The refund accounts that match the accounts an offer was made with.
pub open spec fn refund_of(c: Make) -> Refund {
    Refund {
        maker: c.maker,
        mint_a: c.mint_a,
        mint_b: c.mint_b,
        maker_mint_a_ata: c.maker_mint_a_ata,
        escrow: c.escrow,
        vault: c.vault,
    }
}

/// While an offer of (maker, seed) is open, a second `make` of that maker with that seed
/// fails: with `AlreadyExists` at the offer's own escrow address, with `AccountMismatch`
/// at any other.
pub proof fn make_twice_fails(
    b: BankView,
    c: Make,
    seed: u64,
    receive_amount: u64,
    deposit_amount: u64,
    c2: Make,
    receive_amount2: u64,
    deposit_amount2: u64,
)
    requires
        make_spec(b, c, seed, receive_amount, deposit_amount) is Ok,
        c2.maker == c.maker,
    ensures
        make_spec(
            make_spec(b, c, seed, receive_amount, deposit_amount)->Ok_0,
            c2,
            seed,
            receive_amount2,
            deposit_amount2,
        ) is Err,
        c2.escrow == c.escrow ==> make_spec(
            make_spec(b, c, seed, receive_amount, deposit_amount)->Ok_0,
            c2,
            seed,
            receive_amount2,
            deposit_amount2,
        ) == Err::<BankView, VaultError>(VaultError::AlreadyExists),
{
    if c2.escrow@ == c.escrow@ {
        assert(c2.escrow.bytes =~= c.escrow.bytes);
    }
}

/// Once an offer has been refunded, the maker can open it again with the same seed and
/// the same accounts, for any deposit that its asset-A account can cover (where that
/// account is not the vault itself).
pub proof fn make_after_refund_succeeds(
    b: BankView,
    c: Make,
    seed: u64,
    receive_amount: u64,
    deposit_amount: u64,
    receive_amount2: u64,
    deposit_amount2: u64,
)
    requires
        c.maker_mint_a_ata != c.vault,
        make_spec(b, c, seed, receive_amount, deposit_amount) is Ok,
        refund_spec(make_spec(b, c, seed, receive_amount, deposit_amount)->Ok_0, refund_of(c)) is Ok,
        deposit_amount2 <= refund_spec(
            make_spec(b, c, seed, receive_amount, deposit_amount)->Ok_0,
            refund_of(c),
        )->Ok_0.ledger[c.maker_mint_a_ata].amount,
    ensures
        make_spec(
            refund_spec(
                make_spec(b, c, seed, receive_amount, deposit_amount)->Ok_0,
                refund_of(c),
            )->Ok_0,
            c,
            seed,
            receive_amount2,
            deposit_amount2,
        ) is Ok,
{
    let bi = init_escrow_spec(b, c, seed, receive_amount)->Ok_0;
    let b1 = make_spec(b, c, seed, receive_amount, deposit_amount)->Ok_0;
    assert(b1 == make_deposit_spec(bi, c, deposit_amount)->Ok_0);
    assert(b1.escrows.contains_key(c.escrow));
    assert(b1.program_id == b.program_id);
    let rc = refund_of(c);
    let bw = refund_withdraw_spec(b1, rc)->Ok_0;
    let b2 = refund_spec(b1, rc)->Ok_0;
    assert(b2 == refund_close_spec(bw, rc)->Ok_0);
    assert(bw.ledger.contains_key(c.maker_mint_a_ata));
    assert(bw.ledger[c.maker_mint_a_ata].asset == Asset::Token(c.mint_a));
    assert(bw.ledger[c.maker_mint_a_ata].authority == c.maker);
    assert(!b2.escrows.contains_key(c.escrow));
    assert(!b2.ledger.contains_key(c.vault));
    assert(b2.ledger.contains_key(c.maker_mint_a_ata));
    assert(b2.ledger[c.maker_mint_a_ata] == bw.ledger[c.maker_mint_a_ata]);
    assert(b2.program_id == b.program_id);
    let bi2 = init_escrow_spec(b2, c, seed, receive_amount2);
    assert(bi2 is Ok);
    assert(bi2->Ok_0.ledger[c.maker_mint_a_ata] == b2.ledger[c.maker_mint_a_ata]);
}

/// After `take` has fulfilled an offer, neither `take` nor `refund` finds it again.
pub proof fn take_is_final(b: BankView, c: Take, c2: Take, r: Refund)
    requires
        take_spec(b, c) is Ok,
        c2.escrow == c.escrow,
        r.escrow == c.escrow,
    ensures
        take_spec(take_spec(b, c)->Ok_0, c2) == Err::<BankView, VaultError>(VaultError::NotFound),
        refund_spec(take_spec(b, c)->Ok_0, r) == Err::<BankView, VaultError>(VaultError::NotFound),
{
}

/// After `refund` has cancelled an offer, neither `take` nor `refund` finds it again.
pub proof fn refund_is_final(b: BankView, c: Refund, t: Take, c2: Refund)
    requires
        refund_spec(b, c) is Ok,
        t.escrow == c.escrow,
        c2.escrow == c.escrow,
    ensures
        take_spec(refund_spec(b, c)->Ok_0, t) == Err::<BankView, VaultError>(VaultError::NotFound),
        refund_spec(refund_spec(b, c)->Ok_0, c2) == Err::<BankView, VaultError>(VaultError::NotFound),
{
}

/// `take` with mints other than the record's fails with `AccountMismatch`; by the contract
/// of `take`, the bank is then left as it was.
pub proof fn take_with_other_mints_fails(b: BankView, c: Take)
    requires
        b.escrows.contains_key(c.escrow),
        b.escrows[c.escrow].mint_a != c.mint_a || b.escrows[c.escrow].mint_b != c.mint_b,
    ensures
        take_spec(b, c) == Err::<BankView, VaultError>(VaultError::AccountMismatch),
{
}

} // verus!
