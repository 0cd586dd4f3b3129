//! Properties of the protocol across operations, proved over the handlers'
//! contracts.
use vstd::prelude::*;

use crate::cancel::{cancel_error, cancelled, Cancel};
use crate::custodian::custodian_of;
use crate::exchange::{exchange_error, exchanged, Exchange};
use crate::initialize::{initialize_error, initialized, Initialize};
use crate::model::EscrowError;

verus! {

/// The accounts that cancelling the escrow opened in `post` names.
pub open spec fn cancel_context(post: Initialize) -> Cancel {
    Cancel {
        program_id: post.program_id,
        initializer: post.initializer,
        vault_account: post.vault_account,
        initializer_deposit_token_account: post.initializer_deposit_token_account,
        escrow_account: post.escrow_account,
    }
}

/// A successful open of `initializer_amount` and `taker_amount` records both
/// amounts, leaves exactly `initializer_amount` in the vault, makes the
/// custodian the vault's authority, and takes `initializer_amount` from the
/// deposit account.
pub proof fn lemma_open_moves_deposit_into_custody(
    pre: Initialize,
    post: Initialize,
    initializer_amount: u64,
    taker_amount: u64,
)
    requires
        initialize_error(pre, initializer_amount) is None,
        initialized(pre, post, initializer_amount, taker_amount),
    ensures
        post.escrow_account.record is Some,
        post.escrow_account.record->Some_0.initializer_amount == initializer_amount,
        post.escrow_account.record->Some_0.taker_amount == taker_amount,
        post.vault_account.amount == initializer_amount,
        custodian_of(pre.program_id@) == Some(post.vault_account.owner@),
        post.initializer_deposit_token_account.amount
            == pre.initializer_deposit_token_account.amount - initializer_amount,
{
}

/// Cancelling an escrow right after it was opened succeeds, restores the
/// initializer's deposit balance to its value before the open, leaves the
/// vault empty and closed, and deletes the record.
pub proof fn lemma_cancel_restores_deposit(
    pre: Initialize,
    post: Initialize,
    initializer_amount: u64,
    taker_amount: u64,
    after: Cancel,
)
    requires
        initialize_error(pre, initializer_amount) is None,
        initialized(pre, post, initializer_amount, taker_amount),
        cancelled(cancel_context(post), after),
    ensures
        cancel_error(cancel_context(post)) is None,
        after.initializer_deposit_token_account.amount == pre.initializer_deposit_token_account.amount,
        after.vault_account.amount == 0,
        after.vault_account.is_closed,
        after.escrow_account.record is None,
{
}

/// A successful settle moves exactly the record's `taker_amount` from the
/// taker's deposit account into the initializer's receive account and
/// exactly its `initializer_amount` into the taker's receive account; the
/// vault ends empty and closed and the record is deleted.
pub proof fn lemma_settle_moves_both_amounts(pre: Exchange, post: Exchange)
    requires
        exchange_error(pre) is None,
        exchanged(pre, post),
    ensures
        pre.escrow_account.record is Some,
        ({
            let record = pre.escrow_account.record->Some_0;
            &&& post.initializer_receive_token_account.amount
                == pre.initializer_receive_token_account.amount + record.taker_amount
            &&& post.taker_receive_token_account.amount
                == pre.taker_receive_token_account.amount + record.initializer_amount
            &&& post.taker_deposit_token_account.amount
                == pre.taker_deposit_token_account.amount - record.taker_amount
        }),
        post.vault_account.amount == 0,
        post.vault_account.is_closed,
        post.escrow_account.record is None,
{
}

/// After a successful cancel, cancelling or settling the same escrow again
/// fails with `AlreadyClosed`.
pub proof fn lemma_cancel_closes_escrow(pre: Cancel, post: Cancel)
    requires
        cancel_error(pre) is None,
        cancelled(pre, post),
    ensures
        forall|again: Cancel|
            again.escrow_account == post.escrow_account ==> #[trigger] cancel_error(again)
                == Some(EscrowError::AlreadyClosed),
        forall|again: Exchange|
            again.escrow_account == post.escrow_account ==> #[trigger] exchange_error(again)
                == Some(EscrowError::AlreadyClosed),
{
}

/// After a successful settle, settling or cancelling the same escrow again
/// fails with `AlreadyClosed`.
pub proof fn lemma_settle_closes_escrow(pre: Exchange, post: Exchange)
    requires
        exchange_error(pre) is None,
        exchanged(pre, post),
    ensures
        forall|again: Exchange|
            again.escrow_account == post.escrow_account ==> #[trigger] exchange_error(again)
                == Some(EscrowError::AlreadyClosed),
        forall|again: Cancel|
            again.escrow_account == post.escrow_account ==> #[trigger] cancel_error(again)
                == Some(EscrowError::AlreadyClosed),
{
}

/// Settling an open escrow with a taker deposit balance below the record's
/// `taker_amount` fails with `InsufficientFunds`; by the contract of
/// `exchange`, no account changes.
pub proof fn lemma_settle_needs_taker_funds(ctx: Exchange)
    requires
        ctx.escrow_account.record is Some,
        ctx.taker_deposit_token_account.amount < ctx.escrow_account.record->Some_0.taker_amount,
    ensures
        exchange_error(ctx) == Some(EscrowError::InsufficientFunds),
{
}

} // verus!
