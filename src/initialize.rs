use vstd::prelude::*;

use crate::address::{same_address, Address};
use crate::custodian::{custodian, custodian_of};
use crate::model::{
    with_amount, Authority, EscrowAccount, EscrowError, EscrowSlot, LedgerCall, Party,
    TokenAccount,
};

verus! {

/// The accounts that opening an escrow reads and writes.
#[derive(Clone, Copy, Debug)]
pub struct Initialize {
    pub program_id: Address,
    pub initializer: Party,
    pub mint: Address,
    /// A fresh vault of `mint`, still owned by the initializer.
    pub vault_account: TokenAccount,
    pub initializer_deposit_token_account: TokenAccount,
    pub initializer_receive_token_account: TokenAccount,
    /// A zeroed slot that receives the record.
    pub escrow_account: EscrowSlot,
}

/// The first check that opening fails, in the order they are made.
pub open spec fn initialize_error(ctx: Initialize, initializer_amount: u64) -> Option<EscrowError> {
    let vault = ctx.vault_account;
    let deposit = ctx.initializer_deposit_token_account;
    let receive = ctx.initializer_receive_token_account;
    if ctx.escrow_account.record is Some {
        Some(EscrowError::ConstraintViolation)
    } else if !ctx.initializer.is_signer {
        Some(EscrowError::Unauthorized)
    } else if vault.is_closed || deposit.is_closed || receive.is_closed || vault.mint@ != ctx.mint@
        || vault.owner@ != ctx.initializer.key@ || vault.amount != 0 || vault.key@ == deposit.key@
        || deposit.mint@ != vault.mint@ {
        Some(EscrowError::ConstraintViolation)
    } else if deposit.owner@ != ctx.initializer.key@ {
        Some(EscrowError::Unauthorized)
    } else if deposit.amount < initializer_amount {
        Some(EscrowError::InsufficientFunds)
    } else if custodian_of(ctx.program_id@) is None {
        Some(EscrowError::CustodianUnavailable)
    } else {
        None
    }
}

/// The record that opening writes.
pub open spec fn opened_record(ctx: Initialize, initializer_amount: u64, taker_amount: u64) -> EscrowAccount {
    EscrowAccount {
        initializer_key: ctx.initializer.key,
        initializer_deposit_token_account: ctx.initializer_deposit_token_account.key,
        initializer_receive_token_account: ctx.initializer_receive_token_account.key,
        initializer_amount,
        taker_amount,
    }
}

/// `post` is `pre` after a successful open: the record is written, the
/// vault belongs to the custodian, and `initializer_amount` moved from the
/// deposit account into the vault.
pub open spec fn initialized(pre: Initialize, post: Initialize, initializer_amount: u64, taker_amount: u64) -> bool {
    let vault = pre.vault_account;
    let deposit = pre.initializer_deposit_token_account;
    &&& post.escrow_account == (EscrowSlot {
        key: pre.escrow_account.key,
        record: Some(opened_record(pre, initializer_amount, taker_amount)),
    })
    &&& custodian_of(pre.program_id@) == Some(post.vault_account.owner@)
    &&& post.vault_account == (TokenAccount {
        owner: post.vault_account.owner,
        amount: (vault.amount + initializer_amount) as u64,
        ..vault
    })
    &&& post.initializer_deposit_token_account == with_amount(deposit, deposit.amount - initializer_amount)
    &&& post.initializer_receive_token_account == pre.initializer_receive_token_account
    &&& post.program_id == pre.program_id
    &&& post.initializer == pre.initializer
    &&& post.mint == pre.mint
}

/// The ledger calls that opening issues, in order.
pub open spec fn initialize_calls(ctx: Initialize, initializer_amount: u64) -> Seq<LedgerCall> {
    seq![
        LedgerCall::SetAuthority {
            account: ctx.vault_account.key,
            current: ctx.initializer.key,
            new_authority: Authority::Custodian,
        },
        LedgerCall::Transfer {
            from: ctx.initializer_deposit_token_account.key,
            to: ctx.vault_account.key,
            authority: Authority::Signer(ctx.initializer.key),
            amount: initializer_amount,
        },
    ]
}

/// Opens an escrow: writes the record, hands the vault to the custodian
/// authority and moves `initializer_amount` from the initializer's deposit
/// account into the vault. Every check runs before any account changes;
/// on an error nothing changes.
pub fn initialize(ctx: &mut Initialize, initializer_amount: u64, taker_amount: u64) -> (r: Result<Vec<LedgerCall>, EscrowError>)
    ensures
        match r {
            Ok(calls) => {
                &&& initialize_error(*old(ctx), initializer_amount) is None
                &&& initialized(*old(ctx), *final(ctx), initializer_amount, taker_amount)
                &&& calls@ == initialize_calls(*old(ctx), initializer_amount)
            },
            Err(e) => {
                &&& initialize_error(*old(ctx), initializer_amount) == Some(e)
                &&& *final(ctx) == *old(ctx)
            },
        },
{
    if ctx.escrow_account.record.is_some() {
        return Err(EscrowError::ConstraintViolation);
    }
    if !ctx.initializer.is_signer {
        return Err(EscrowError::Unauthorized);
    }
    let vault = ctx.vault_account;
    let deposit = ctx.initializer_deposit_token_account;
    let receive = ctx.initializer_receive_token_account;
    if vault.is_closed || deposit.is_closed || receive.is_closed
        || !same_address(&vault.mint, &ctx.mint)
        || !same_address(&vault.owner, &ctx.initializer.key) || vault.amount != 0
        || same_address(&vault.key, &deposit.key) || !same_address(&deposit.mint, &vault.mint) {
        return Err(EscrowError::ConstraintViolation);
    }
    if !same_address(&deposit.owner, &ctx.initializer.key) {
        return Err(EscrowError::Unauthorized);
    }
    if deposit.amount < initializer_amount {
        return Err(EscrowError::InsufficientFunds);
    }
    let authority = match custodian(&ctx.program_id) {
        Some(c) => c,
        None => {
            return Err(EscrowError::CustodianUnavailable);
        },
    };
    ctx.escrow_account.record = Some(
        EscrowAccount {
            initializer_key: ctx.initializer.key,
            initializer_deposit_token_account: deposit.key,
            initializer_receive_token_account: receive.key,
            initializer_amount,
            taker_amount,
        },
    );
    ctx.vault_account.owner = authority;
    ctx.initializer_deposit_token_account.amount = deposit.amount - initializer_amount;
    ctx.vault_account.amount = initializer_amount;
    let mut calls: Vec<LedgerCall> = Vec::new();
    calls.push(
        LedgerCall::SetAuthority {
            account: vault.key,
            current: ctx.initializer.key,
            new_authority: Authority::Custodian,
        },
    );
    calls.push(
        LedgerCall::Transfer {
            from: deposit.key,
            to: vault.key,
            authority: Authority::Signer(ctx.initializer.key),
            amount: initializer_amount,
        },
    );
    assert(calls@ =~= initialize_calls(*old(ctx), initializer_amount));
    Ok(calls)
}

} // verus!
