use vstd::prelude::*;

use crate::address::Address;

verus! {

/// A wallet account named by an operation: its key, and whether it signed.
#[derive(Clone, Copy, Debug)]
pub struct Party {
    pub key: Address,
    pub is_signer: bool,
}

/// A token-holding account as the ledger keeps it.
#[derive(Clone, Copy, Debug)]
pub struct TokenAccount {
    pub key: Address,
    pub mint: Address,
    /// The authority that may move the tokens or close the account.
    pub owner: Address,
    pub amount: u64,
    pub is_closed: bool,
}

/// The persisted state of one open escrow.
#[derive(Clone, Copy, Debug)]
pub struct EscrowAccount {
    pub initializer_key: Address,
    pub initializer_deposit_token_account: Address,
    pub initializer_receive_token_account: Address,
    pub initializer_amount: u64,
    pub taker_amount: u64,
}

/// The storage slot of an escrow record: `record` is `Some` exactly while
/// the escrow is open.
#[derive(Clone, Copy, Debug)]
pub struct EscrowSlot {
    pub key: Address,
    pub record: Option<EscrowAccount>,
}

#[derive(Clone, Copy, Debug, PartialEq, Eq, Structural)]
pub enum EscrowError {
    /// A required signature is missing, or the wrong authority was named.
    Unauthorized,
    /// A supplied account does not match what the escrow requires.
    ConstraintViolation,
    /// A balance is below the amount a transfer moves.
    InsufficientFunds,
    /// The escrow record does not exist: it was cancelled or settled.
    AlreadyClosed,
    /// A destination balance would exceed the largest token amount.
    Overflow,
    /// No custodian address can be derived for the program.
    CustodianUnavailable,
}

/// Who authorizes a ledger call: a signing party, or the program's own
/// custodian authority, which the program signs for at call time.
#[derive(Clone, Copy, Debug)]
pub enum Authority {
    Signer(Address),
    Custodian,
}

/// One call into the ledger's token program, as an operation issues it.
#[derive(Clone, Copy, Debug)]
pub enum LedgerCall {
    SetAuthority { account: Address, current: Address, new_authority: Authority },
    Transfer { from: Address, to: Address, authority: Authority, amount: u64 },
    CloseAccount { account: Address, destination: Address, authority: Authority },
}

/// The account `a` holding `amount` tokens, all else unchanged.
pub open spec fn with_amount(a: TokenAccount, amount: int) -> TokenAccount {
    TokenAccount { amount: amount as u64, ..a }
}

/// The account `a` holding no tokens and closed.
pub open spec fn drained_and_closed(a: TokenAccount) -> TokenAccount {
    TokenAccount { amount: 0, is_closed: true, ..a }
}

} // verus!
