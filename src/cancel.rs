use vstd::prelude::*;

use crate::address::{same_address, Address};
use crate::custodian::{custodian, custodian_of};
use crate::model::{
    drained_and_closed, with_amount, Authority, EscrowError, EscrowSlot, LedgerCall, Party,
    TokenAccount,
};

verus! {

/// The accounts that cancelling an escrow reads and writes.
#[derive(Clone, Copy, Debug)]
pub struct Cancel {
    pub program_id: Address,
    pub initializer: Party,
    pub vault_account: TokenAccount,
    pub initializer_deposit_token_account: TokenAccount,
    pub escrow_account: EscrowSlot,
}

/// The first check that cancelling fails, in the order they are made.
pub open spec fn cancel_error(ctx: Cancel) -> Option<EscrowError> {
    let vault = ctx.vault_account;
    let deposit = ctx.initializer_deposit_token_account;
    match ctx.escrow_account.record {
        None => Some(EscrowError::AlreadyClosed),
        Some(record) => if !ctx.initializer.is_signer {
            Some(EscrowError::Unauthorized)
        } else if record.initializer_key@ != ctx.initializer.key@
            || record.initializer_deposit_token_account@ != deposit.key@ || vault.is_closed
            || deposit.is_closed || vault.key@ == deposit.key@ || vault.mint@ != deposit.mint@
            || vault.amount != record.initializer_amount {
            Some(EscrowError::ConstraintViolation)
        } else if custodian_of(ctx.program_id@) is None {
            Some(EscrowError::CustodianUnavailable)
        } else if custodian_of(ctx.program_id@) != Some(vault.owner@) {
            Some(EscrowError::Unauthorized)
        } else if deposit.amount + record.initializer_amount > u64::MAX {
            Some(EscrowError::Overflow)
        } else {
            None
        },
    }
}

/// `post` is `pre` after a successful cancel: the vault's tokens are back in
/// the deposit account, the vault is closed and the record is gone.
pub open spec fn cancelled(pre: Cancel, post: Cancel) -> bool {
    let deposit = pre.initializer_deposit_token_account;
    &&& post.initializer_deposit_token_account == with_amount(deposit, deposit.amount + pre.vault_account.amount)
    &&& post.vault_account == drained_and_closed(pre.vault_account)
    &&& post.escrow_account == (EscrowSlot { key: pre.escrow_account.key, record: None })
    &&& post.program_id == pre.program_id
    &&& post.initializer == pre.initializer
}

/// The ledger calls that cancelling issues, in order.
pub open spec fn cancel_calls(ctx: Cancel) -> Seq<LedgerCall> {
    seq![
        LedgerCall::Transfer {
            from: ctx.vault_account.key,
            to: ctx.initializer_deposit_token_account.key,
            authority: Authority::Custodian,
            amount: ctx.vault_account.amount,
        },
        LedgerCall::CloseAccount {
            account: ctx.vault_account.key,
            destination: ctx.initializer.key,
            authority: Authority::Custodian,
        },
    ]
}

/// Cancels an open escrow: the custodian returns the vault's tokens to the
/// initializer's deposit account, the vault is closed and the record
/// deleted. Every check runs before any account changes; on an error
/// nothing changes.
pub fn cancel(ctx: &mut Cancel) -> (r: Result<Vec<LedgerCall>, EscrowError>)
    ensures
        match r {
            Ok(calls) => {
                &&& cancel_error(*old(ctx)) is None
                &&& cancelled(*old(ctx), *final(ctx))
                &&& calls@ == cancel_calls(*old(ctx))
            },
            Err(e) => {
                &&& cancel_error(*old(ctx)) == Some(e)
                &&& *final(ctx) == *old(ctx)
            },
        },
{
    let record = match ctx.escrow_account.record {
        Some(record) => record,
        None => {
            return Err(EscrowError::AlreadyClosed);
        },
    };
    if !ctx.initializer.is_signer {
        return Err(EscrowError::Unauthorized);
    }
    let vault = ctx.vault_account;
    let deposit = ctx.initializer_deposit_token_account;
    if !same_address(&record.initializer_key, &ctx.initializer.key)
        || !same_address(&record.initializer_deposit_token_account, &deposit.key)
        || vault.is_closed || deposit.is_closed || same_address(&vault.key, &deposit.key)
        || !same_address(&vault.mint, &deposit.mint) || vault.amount != record.initializer_amount {
        return Err(EscrowError::ConstraintViolation);
    }
    let authority = match custodian(&ctx.program_id) {
        Some(c) => c,
        None => {
            return Err(EscrowError::CustodianUnavailable);
        },
    };
    if !same_address(&authority, &vault.owner) {
        return Err(EscrowError::Unauthorized);
    }
    if deposit.amount > u64::MAX - record.initializer_amount {
        return Err(EscrowError::Overflow);
    }
    ctx.initializer_deposit_token_account.amount = deposit.amount + vault.amount;
    ctx.vault_account.amount = 0;
    ctx.vault_account.is_closed = true;
    ctx.escrow_account.record = None;
    let mut calls: Vec<LedgerCall> = Vec::new();
    calls.push(
        LedgerCall::Transfer {
            from: vault.key,
            to: deposit.key,
            authority: Authority::Custodian,
            amount: vault.amount,
        },
    );
    calls.push(
        LedgerCall::CloseAccount {
            account: vault.key,
            destination: ctx.initializer.key,
            authority: Authority::Custodian,
        },
    );
    assert(calls@ =~= cancel_calls(*old(ctx)));
    Ok(calls)
}

} // verus!
