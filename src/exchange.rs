use vstd::prelude::*;

use crate::address::{same_address, Address};
use crate::custodian::{custodian, custodian_of};
use crate::model::{
    drained_and_closed, with_amount, Authority, EscrowError, EscrowSlot, LedgerCall, Party,
    TokenAccount,
};

verus! {

/// The accounts that settling an escrow reads and writes.
#[derive(Clone, Copy, Debug)]
pub struct Exchange {
    pub program_id: Address,
    pub taker: Party,
    pub taker_deposit_token_account: TokenAccount,
    pub taker_receive_token_account: TokenAccount,
    /// Read only, to be matched against the record.
    pub initializer_deposit_token_account: TokenAccount,
    pub initializer_receive_token_account: TokenAccount,
    /// Receives the storage deposits of the closed vault and record.
    pub initializer: Party,
    pub escrow_account: EscrowSlot,
    pub vault_account: TokenAccount,
}

/// The four token accounts whose balances a settle changes are open and
/// pairwise distinct, and each transfer stays within one mint.
pub open spec fn exchange_accounts_fit(ctx: Exchange) -> bool {
    let taker_deposit = ctx.taker_deposit_token_account;
    let taker_receive = ctx.taker_receive_token_account;
    let receive = ctx.initializer_receive_token_account;
    let vault = ctx.vault_account;
    &&& !taker_deposit.is_closed && !taker_receive.is_closed && !receive.is_closed && !vault.is_closed
    &&& taker_deposit.key@ != taker_receive.key@ && taker_deposit.key@ != receive.key@
    &&& taker_deposit.key@ != vault.key@ && taker_receive.key@ != receive.key@
    &&& taker_receive.key@ != vault.key@ && receive.key@ != vault.key@
    &&& taker_deposit.mint@ == receive.mint@ && vault.mint@ == taker_receive.mint@
}

/// The first check that settling fails, in the order they are made.
pub open spec fn exchange_error(ctx: Exchange) -> Option<EscrowError> {
    let taker_deposit = ctx.taker_deposit_token_account;
    let vault = ctx.vault_account;
    match ctx.escrow_account.record {
        None => Some(EscrowError::AlreadyClosed),
        Some(record) => if taker_deposit.amount < record.taker_amount {
            Some(EscrowError::InsufficientFunds)
        } else if !ctx.taker.is_signer {
            Some(EscrowError::Unauthorized)
        } else if record.initializer_deposit_token_account@ != ctx.initializer_deposit_token_account.key@
            || record.initializer_receive_token_account@ != ctx.initializer_receive_token_account.key@
            || record.initializer_key@ != ctx.initializer.key@ || !exchange_accounts_fit(ctx)
            || vault.amount != record.initializer_amount {
            Some(EscrowError::ConstraintViolation)
        } else if taker_deposit.owner@ != ctx.taker.key@ {
            Some(EscrowError::Unauthorized)
        } else if custodian_of(ctx.program_id@) is None {
            Some(EscrowError::CustodianUnavailable)
        } else if custodian_of(ctx.program_id@) != Some(vault.owner@) {
            Some(EscrowError::Unauthorized)
        } else if ctx.initializer_receive_token_account.amount + record.taker_amount > u64::MAX
            || ctx.taker_receive_token_account.amount + record.initializer_amount > u64::MAX {
            Some(EscrowError::Overflow)
        } else {
            None
        },
    }
}

/// `post` is `pre` after a successful settle of `record`: `taker_amount`
/// moved from the taker to the initializer, the vault's tokens to the taker,
/// the vault is closed and the record is gone.
pub open spec fn exchanged(pre: Exchange, post: Exchange) -> bool {
    let record = pre.escrow_account.record->Some_0;
    let taker_deposit = pre.taker_deposit_token_account;
    let taker_receive = pre.taker_receive_token_account;
    let receive = pre.initializer_receive_token_account;
    &&& post.taker_deposit_token_account == with_amount(taker_deposit, taker_deposit.amount - record.taker_amount)
    &&& post.initializer_receive_token_account == with_amount(receive, receive.amount + record.taker_amount)
    &&& post.taker_receive_token_account == with_amount(taker_receive, taker_receive.amount + pre.vault_account.amount)
    &&& post.vault_account == drained_and_closed(pre.vault_account)
    &&& post.escrow_account == (EscrowSlot { key: pre.escrow_account.key, record: None })
    &&& post.initializer_deposit_token_account == pre.initializer_deposit_token_account
    &&& post.program_id == pre.program_id
    &&& post.taker == pre.taker
    &&& post.initializer == pre.initializer
}

/// The ledger calls that settling issues, in order.
pub open spec fn exchange_calls(ctx: Exchange) -> Seq<LedgerCall> {
    let record = ctx.escrow_account.record->Some_0;
    seq![
        LedgerCall::Transfer {
            from: ctx.taker_deposit_token_account.key,
            to: ctx.initializer_receive_token_account.key,
            authority: Authority::Signer(ctx.taker.key),
            amount: record.taker_amount,
        },
        LedgerCall::Transfer {
            from: ctx.vault_account.key,
            to: ctx.taker_receive_token_account.key,
            authority: Authority::Custodian,
            amount: ctx.vault_account.amount,
        },
        LedgerCall::CloseAccount {
            account: ctx.vault_account.key,
            destination: ctx.initializer.key,
            authority: Authority::Custodian,
        },
    ]
}

fn accounts_fit(ctx: &Exchange) -> (r: bool)
    ensures
        r == exchange_accounts_fit(*ctx),
{
    let taker_deposit = &ctx.taker_deposit_token_account;
    let taker_receive = &ctx.taker_receive_token_account;
    let receive = &ctx.initializer_receive_token_account;
    let vault = &ctx.vault_account;
    !taker_deposit.is_closed && !taker_receive.is_closed && !receive.is_closed && !vault.is_closed
        && !same_address(&taker_deposit.key, &taker_receive.key)
        && !same_address(&taker_deposit.key, &receive.key)
        && !same_address(&taker_deposit.key, &vault.key)
        && !same_address(&taker_receive.key, &receive.key)
        && !same_address(&taker_receive.key, &vault.key)
        && !same_address(&receive.key, &vault.key)
        && same_address(&taker_deposit.mint, &receive.mint)
        && same_address(&vault.mint, &taker_receive.mint)
}

/// Settles an open escrow: moves `taker_amount` from the taker's deposit
/// account to the initializer's receive account, then, under the custodian
/// authority, the vault's `initializer_amount` to the taker's receive
/// account, and closes the vault and the record. Every check runs before
/// any account changes; on an error nothing changes.
pub fn exchange(ctx: &mut Exchange) -> (r: Result<Vec<LedgerCall>, EscrowError>)
    ensures
        match r {
            Ok(calls) => {
                &&& exchange_error(*old(ctx)) is None
                &&& exchanged(*old(ctx), *final(ctx))
                &&& calls@ == exchange_calls(*old(ctx))
            },
            Err(e) => {
                &&& exchange_error(*old(ctx)) == Some(e)
                &&& *final(ctx) == *old(ctx)
            },
        },
{
    let record = match ctx.escrow_account.record {
        Some(record) => record,
        None => {
            return Err(EscrowError::AlreadyClosed);
        },
    };
    let taker_deposit = ctx.taker_deposit_token_account;
    let taker_receive = ctx.taker_receive_token_account;
    let receive = ctx.initializer_receive_token_account;
    let vault = ctx.vault_account;
    if taker_deposit.amount < record.taker_amount {
        return Err(EscrowError::InsufficientFunds);
    }
    if !ctx.taker.is_signer {
        return Err(EscrowError::Unauthorized);
    }
    if !same_address(&record.initializer_deposit_token_account, &ctx.initializer_deposit_token_account.key)
        || !same_address(&record.initializer_receive_token_account, &receive.key)
        || !same_address(&record.initializer_key, &ctx.initializer.key) || !accounts_fit(ctx)
        || vault.amount != record.initializer_amount {
        return Err(EscrowError::ConstraintViolation);
    }
    if !same_address(&taker_deposit.owner, &ctx.taker.key) {
        return Err(EscrowError::Unauthorized);
    }
    let authority = match custodian(&ctx.program_id) {
        Some(c) => c,
        None => {
            return Err(EscrowError::CustodianUnavailable);
        },
    };
    if !same_address(&authority, &vault.owner) {
        return Err(EscrowError::Unauthorized);
    }
    if receive.amount > u64::MAX - record.taker_amount
        || taker_receive.amount > u64::MAX - record.initializer_amount {
        return Err(EscrowError::Overflow);
    }
    ctx.taker_deposit_token_account.amount = taker_deposit.amount - record.taker_amount;
    ctx.initializer_receive_token_account.amount = receive.amount + record.taker_amount;
    ctx.taker_receive_token_account.amount = taker_receive.amount + vault.amount;
    ctx.vault_account.amount = 0;
    ctx.vault_account.is_closed = true;
    ctx.escrow_account.record = None;
    let mut calls: Vec<LedgerCall> = Vec::new();
    calls.push(
        LedgerCall::Transfer {
            from: taker_deposit.key,
            to: receive.key,
            authority: Authority::Signer(ctx.taker.key),
            amount: record.taker_amount,
        },
    );
    calls.push(
        LedgerCall::Transfer {
            from: vault.key,
            to: taker_receive.key,
            authority: Authority::Custodian,
            amount: vault.amount,
        },
    );
    calls.push(
        LedgerCall::CloseAccount {
            account: vault.key,
            destination: ctx.initializer.key,
            authority: Authority::Custodian,
        },
    );
    assert(calls@ =~= exchange_calls(*old(ctx)));
    Ok(calls)
}

} // verus!
