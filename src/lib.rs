//! A two-party token escrow: open, cancel and settle, over a model of the
//! ledger accounts that each operation touches.
mod address;
mod cancel;
mod custodian;
mod exchange;
mod initialize;
mod laws;
mod model;

pub use address::{same_address, Address};
pub use custodian::{custodian_of, custodian_seed, custodian_seed_spec, program_address};
pub use model::{
    drained_and_closed, with_amount, Authority, EscrowAccount, EscrowError, EscrowSlot,
    LedgerCall, Party, TokenAccount,
};
pub use initialize::{initialize, initialize_calls, initialize_error, initialized, opened_record, Initialize};
pub use cancel::{cancel, cancel_calls, cancel_error, cancelled, Cancel};
pub use exchange::{exchange, exchange_accounts_fit, exchange_calls, exchange_error, exchanged, Exchange};
pub use laws::{
    cancel_context, lemma_cancel_closes_escrow, lemma_cancel_restores_deposit,
    lemma_open_moves_deposit_into_custody, lemma_settle_closes_escrow,
    lemma_settle_moves_both_amounts, lemma_settle_needs_taker_funds,
};
