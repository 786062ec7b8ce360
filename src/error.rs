use vstd::prelude::*;

verus! {

/// Failures that an instruction reports to its caller.
#[derive(Clone, Copy, Debug, PartialEq, Eq, Structural)]
pub enum VaultError {
    /// A record that the instruction creates is already there.
    AlreadyExists,
    /// A record or an account that the instruction reads is absent.
    NotFound,
    /// A supplied account does not match the stored identities or the derivation.
    AccountMismatch,
    /// The signer offered for a debit is not the account's authority.
    AuthorityInvalid,
    /// The source account holds less than the amount asked for.
    InsufficientFunds,
    /// An account that still holds a balance cannot be closed.
    NonEmptyAccount,
    /// A credit would carry a balance past `u64::MAX`.
    Overflow,
}

} // verus!
