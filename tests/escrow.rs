use anchor_escrow::{
    cancel, custodian_seed, exchange, initialize, same_address, Address, Authority, Cancel,
    EscrowError, EscrowSlot, Exchange, Initialize, LedgerCall, Party, TokenAccount,
};
use anchor_lang::solana_program::pubkey::Pubkey;

fn addr(b: u8) -> Address {
    Address::new([b; 32])
}

const PROGRAM: u8 = 1;
const INITIALIZER: u8 = 2;
const TAKER: u8 = 3;
const MINT_A: u8 = 10;
const MINT_B: u8 = 11;
const VAULT: u8 = 20;
const INIT_DEPOSIT: u8 = 21;
const INIT_RECEIVE: u8 = 22;
const TAKER_DEPOSIT: u8 = 23;
const TAKER_RECEIVE: u8 = 24;
const RECORD: u8 = 30;

fn token(key: u8, mint: u8, owner: Address, amount: u64) -> TokenAccount {
    TokenAccount { key: addr(key), mint: addr(mint), owner, amount, is_closed: false }
}

fn open_context(deposit: u64) -> Initialize {
    Initialize {
        program_id: addr(PROGRAM),
        initializer: Party { key: addr(INITIALIZER), is_signer: true },
        mint: addr(MINT_A),
        vault_account: token(VAULT, MINT_A, addr(INITIALIZER), 0),
        initializer_deposit_token_account: token(INIT_DEPOSIT, MINT_A, addr(INITIALIZER), deposit),
        initializer_receive_token_account: token(INIT_RECEIVE, MINT_B, addr(INITIALIZER), 0),
        escrow_account: EscrowSlot { key: addr(RECORD), record: None },
    }
}

fn cancel_context(after_open: &Initialize) -> Cancel {
    Cancel {
        program_id: after_open.program_id,
        initializer: after_open.initializer,
        vault_account: after_open.vault_account,
        initializer_deposit_token_account: after_open.initializer_deposit_token_account,
        escrow_account: after_open.escrow_account,
    }
}

fn exchange_context(after_open: &Initialize, taker_deposit: u64) -> Exchange {
    Exchange {
        program_id: after_open.program_id,
        taker: Party { key: addr(TAKER), is_signer: true },
        taker_deposit_token_account: token(TAKER_DEPOSIT, MINT_B, addr(TAKER), taker_deposit),
        taker_receive_token_account: token(TAKER_RECEIVE, MINT_A, addr(TAKER), 0),
        initializer_deposit_token_account: after_open.initializer_deposit_token_account,
        initializer_receive_token_account: after_open.initializer_receive_token_account,
        initializer: after_open.initializer,
        escrow_account: after_open.escrow_account,
        vault_account: after_open.vault_account,
    }
}

fn opened(deposit: u64, initializer_amount: u64, taker_amount: u64) -> Initialize {
    let mut ctx = open_context(deposit);
    initialize(&mut ctx, initializer_amount, taker_amount).unwrap();
    ctx
}

fn expected_custodian() -> [u8; 32] {
    let program = Pubkey::new_from_array([PROGRAM; 32]);
    Pubkey::find_program_address(&[b"escrow"], &program).0.to_bytes()
}

#[test]
fn open_then_settle_scenario() {
    let after_open = opened(150, 100, 50);
    let record = after_open.escrow_account.record.unwrap();
    assert_eq!(record.initializer_amount, 100);
    assert_eq!(record.taker_amount, 50);
    assert_eq!(after_open.vault_account.amount, 100);
    assert_eq!(after_open.initializer_deposit_token_account.amount, 50);

    let mut ctx = exchange_context(&after_open, 80);
    let calls = exchange(&mut ctx).unwrap();
    assert_eq!(calls.len(), 3);
    assert_eq!(ctx.taker_deposit_token_account.amount, 30);
    assert_eq!(ctx.initializer_receive_token_account.amount, 50);
    assert_eq!(ctx.taker_receive_token_account.amount, 100);
    assert_eq!(ctx.vault_account.amount, 0);
    assert!(ctx.vault_account.is_closed);
    assert!(ctx.escrow_account.record.is_none());
}

#[test]
fn open_then_cancel_scenario() {
    let after_open = opened(150, 100, 50);
    let mut ctx = cancel_context(&after_open);
    let calls = cancel(&mut ctx).unwrap();
    assert_eq!(calls.len(), 2);
    assert_eq!(ctx.initializer_deposit_token_account.amount, 150);
    assert_eq!(ctx.vault_account.amount, 0);
    assert!(ctx.vault_account.is_closed);
    assert!(ctx.escrow_account.record.is_none());

    let mut settle = exchange_context(&after_open, 80);
    settle.escrow_account = ctx.escrow_account;
    settle.vault_account = ctx.vault_account;
    let before = settle;
    assert_eq!(exchange(&mut settle).unwrap_err(), EscrowError::AlreadyClosed);
    assert_eq!(settle.taker_deposit_token_account.amount, before.taker_deposit_token_account.amount);
}

#[test]
fn open_records_amounts_and_hands_vault_to_custodian() {
    let after_open = opened(500, 200, 7);
    let record = after_open.escrow_account.record.unwrap();
    assert_eq!(record.initializer_amount, 200);
    assert_eq!(record.taker_amount, 7);
    assert_eq!(record.initializer_key.bytes, [INITIALIZER; 32]);
    assert_eq!(record.initializer_deposit_token_account.bytes, [INIT_DEPOSIT; 32]);
    assert_eq!(record.initializer_receive_token_account.bytes, [INIT_RECEIVE; 32]);
    assert_eq!(after_open.vault_account.amount, 200);
    assert_eq!(after_open.vault_account.owner.bytes, expected_custodian());
    assert_ne!(after_open.vault_account.owner.bytes, [INITIALIZER; 32]);
    assert_ne!(after_open.vault_account.owner.bytes, [PROGRAM; 32]);
}

#[test]
fn open_issues_authority_change_then_transfer() {
    let mut ctx = open_context(150);
    let calls = initialize(&mut ctx, 100, 50).unwrap();
    assert_eq!(calls.len(), 2);
    match calls[0] {
        LedgerCall::SetAuthority { account, current, new_authority } => {
            assert_eq!(account.bytes, [VAULT; 32]);
            assert_eq!(current.bytes, [INITIALIZER; 32]);
            assert!(matches!(new_authority, Authority::Custodian));
        }
        _ => panic!("expected an authority change first"),
    }
    match calls[1] {
        LedgerCall::Transfer { from, to, authority, amount } => {
            assert_eq!(from.bytes, [INIT_DEPOSIT; 32]);
            assert_eq!(to.bytes, [VAULT; 32]);
            assert!(matches!(authority, Authority::Signer(k) if k.bytes == [INITIALIZER; 32]));
            assert_eq!(amount, 100);
        }
        _ => panic!("expected a transfer second"),
    }
}

#[test]
fn open_with_zero_amounts_is_accepted() {
    let after_open = opened(0, 0, 0);
    assert_eq!(after_open.vault_account.amount, 0);
    assert_eq!(after_open.escrow_account.record.unwrap().taker_amount, 0);
}

#[test]
fn open_with_whole_balance() {
    let after_open = opened(u64::MAX, u64::MAX, u64::MAX);
    assert_eq!(after_open.vault_account.amount, u64::MAX);
    assert_eq!(after_open.initializer_deposit_token_account.amount, 0);
}

#[test]
fn open_without_funds_fails_and_changes_nothing() {
    let mut ctx = open_context(99);
    assert_eq!(initialize(&mut ctx, 100, 50).unwrap_err(), EscrowError::InsufficientFunds);
    assert_eq!(ctx.initializer_deposit_token_account.amount, 99);
    assert_eq!(ctx.vault_account.amount, 0);
    assert_eq!(ctx.vault_account.owner.bytes, [INITIALIZER; 32]);
    assert!(ctx.escrow_account.record.is_none());
}

#[test]
fn open_without_signature_is_unauthorized() {
    let mut ctx = open_context(150);
    ctx.initializer.is_signer = false;
    assert_eq!(initialize(&mut ctx, 100, 50).unwrap_err(), EscrowError::Unauthorized);
    assert!(ctx.escrow_account.record.is_none());
}

#[test]
fn open_on_used_slot_is_a_constraint_violation() {
    let mut ctx = opened(300, 100, 50);
    ctx.vault_account = token(VAULT, MINT_A, addr(INITIALIZER), 0);
    assert_eq!(initialize(&mut ctx, 100, 50).unwrap_err(), EscrowError::ConstraintViolation);
    assert_eq!(ctx.initializer_deposit_token_account.amount, 200);
}

#[test]
fn open_with_vault_of_other_mint_is_a_constraint_violation() {
    let mut ctx = open_context(150);
    ctx.vault_account.mint = addr(MINT_B);
    assert_eq!(initialize(&mut ctx, 100, 50).unwrap_err(), EscrowError::ConstraintViolation);
}

#[test]
fn open_from_account_of_another_owner_is_unauthorized() {
    let mut ctx = open_context(150);
    ctx.initializer_deposit_token_account.owner = addr(TAKER);
    assert_eq!(initialize(&mut ctx, 100, 50).unwrap_err(), EscrowError::Unauthorized);
}

#[test]
fn cancel_twice_fails_already_closed() {
    let after_open = opened(150, 100, 50);
    let mut ctx = cancel_context(&after_open);
    cancel(&mut ctx).unwrap();
    assert_eq!(cancel(&mut ctx).unwrap_err(), EscrowError::AlreadyClosed);
    assert_eq!(ctx.initializer_deposit_token_account.amount, 150);
}

#[test]
fn settle_twice_fails_already_closed() {
    let after_open = opened(150, 100, 50);
    let mut ctx = exchange_context(&after_open, 80);
    exchange(&mut ctx).unwrap();
    assert_eq!(exchange(&mut ctx).unwrap_err(), EscrowError::AlreadyClosed);
    assert_eq!(ctx.taker_deposit_token_account.amount, 30);

    let mut again = cancel_context(&after_open);
    again.escrow_account = ctx.escrow_account;
    assert_eq!(cancel(&mut again).unwrap_err(), EscrowError::AlreadyClosed);
}

#[test]
fn settle_with_short_taker_fails_insufficient_funds() {
    let after_open = opened(150, 100, 50);
    let mut ctx = exchange_context(&after_open, 49);
    assert_eq!(exchange(&mut ctx).unwrap_err(), EscrowError::InsufficientFunds);
    assert_eq!(ctx.taker_deposit_token_account.amount, 49);
    assert_eq!(ctx.initializer_receive_token_account.amount, 0);
    assert_eq!(ctx.taker_receive_token_account.amount, 0);
    assert_eq!(ctx.vault_account.amount, 100);
    assert!(!ctx.vault_account.is_closed);
    assert!(ctx.escrow_account.record.is_some());
}

#[test]
fn settle_with_exact_taker_balance() {
    let after_open = opened(150, 100, 50);
    let mut ctx = exchange_context(&after_open, 50);
    exchange(&mut ctx).unwrap();
    assert_eq!(ctx.taker_deposit_token_account.amount, 0);
    assert_eq!(ctx.initializer_receive_token_account.amount, 50);
}

#[test]
fn settle_issues_transfers_then_close() {
    let after_open = opened(150, 100, 50);
    let mut ctx = exchange_context(&after_open, 80);
    let calls = exchange(&mut ctx).unwrap();
    match calls[0] {
        LedgerCall::Transfer { from, to, authority, amount } => {
            assert_eq!(from.bytes, [TAKER_DEPOSIT; 32]);
            assert_eq!(to.bytes, [INIT_RECEIVE; 32]);
            assert!(matches!(authority, Authority::Signer(k) if k.bytes == [TAKER; 32]));
            assert_eq!(amount, 50);
        }
        _ => panic!("expected the taker's transfer first"),
    }
    match calls[1] {
        LedgerCall::Transfer { from, to, authority, amount } => {
            assert_eq!(from.bytes, [VAULT; 32]);
            assert_eq!(to.bytes, [TAKER_RECEIVE; 32]);
            assert!(matches!(authority, Authority::Custodian));
            assert_eq!(amount, 100);
        }
        _ => panic!("expected the vault's transfer second"),
    }
    match calls[2] {
        LedgerCall::CloseAccount { account, destination, authority } => {
            assert_eq!(account.bytes, [VAULT; 32]);
            assert_eq!(destination.bytes, [INITIALIZER; 32]);
            assert!(matches!(authority, Authority::Custodian));
        }
        _ => panic!("expected the vault to close last"),
    }
}

#[test]
fn settle_without_signature_is_unauthorized() {
    let after_open = opened(150, 100, 50);
    let mut ctx = exchange_context(&after_open, 80);
    ctx.taker.is_signer = false;
    assert_eq!(exchange(&mut ctx).unwrap_err(), EscrowError::Unauthorized);
}

#[test]
fn settle_with_wrong_receive_account_is_a_constraint_violation() {
    let after_open = opened(150, 100, 50);
    let mut ctx = exchange_context(&after_open, 80);
    ctx.initializer_receive_token_account = token(40, MINT_B, addr(INITIALIZER), 0);
    assert_eq!(exchange(&mut ctx).unwrap_err(), EscrowError::ConstraintViolation);
    assert_eq!(ctx.taker_deposit_token_account.amount, 80);
}

#[test]
fn settle_into_same_account_twice_is_a_constraint_violation() {
    let after_open = opened(150, 100, 50);
    let mut ctx = exchange_context(&after_open, 80);
    ctx.taker_receive_token_account.key = addr(TAKER_DEPOSIT);
    assert_eq!(exchange(&mut ctx).unwrap_err(), EscrowError::ConstraintViolation);
}

#[test]
fn settle_overflowing_receive_account_fails() {
    let after_open = opened(150, 100, 50);
    let mut ctx = exchange_context(&after_open, 80);
    ctx.taker_receive_token_account.amount = u64::MAX - 99;
    assert_eq!(exchange(&mut ctx).unwrap_err(), EscrowError::Overflow);
    assert_eq!(ctx.vault_account.amount, 100);
}

#[test]
fn settle_from_vault_not_held_by_custodian_is_unauthorized() {
    let after_open = opened(150, 100, 50);
    let mut ctx = exchange_context(&after_open, 80);
    ctx.vault_account.owner = addr(INITIALIZER);
    assert_eq!(exchange(&mut ctx).unwrap_err(), EscrowError::Unauthorized);
}

#[test]
fn cancel_by_another_party_is_a_constraint_violation() {
    let after_open = opened(150, 100, 50);
    let mut ctx = cancel_context(&after_open);
    ctx.initializer = Party { key: addr(TAKER), is_signer: true };
    assert_eq!(cancel(&mut ctx).unwrap_err(), EscrowError::ConstraintViolation);
    assert!(ctx.escrow_account.record.is_some());
    assert_eq!(ctx.vault_account.amount, 100);
}

#[test]
fn cancel_without_signature_is_unauthorized() {
    let after_open = opened(150, 100, 50);
    let mut ctx = cancel_context(&after_open);
    ctx.initializer.is_signer = false;
    assert_eq!(cancel(&mut ctx).unwrap_err(), EscrowError::Unauthorized);
}

#[test]
fn cancel_to_other_deposit_account_is_a_constraint_violation() {
    let after_open = opened(150, 100, 50);
    let mut ctx = cancel_context(&after_open);
    ctx.initializer_deposit_token_account.key = addr(INIT_RECEIVE);
    assert_eq!(cancel(&mut ctx).unwrap_err(), EscrowError::ConstraintViolation);
}

#[test]
fn cancel_overflowing_deposit_account_fails() {
    let after_open = opened(150, 100, 50);
    let mut ctx = cancel_context(&after_open);
    ctx.initializer_deposit_token_account.amount = u64::MAX;
    assert_eq!(cancel(&mut ctx).unwrap_err(), EscrowError::Overflow);
}

#[test]
fn custodian_seed_spells_escrow() {
    assert_eq!(custodian_seed(), b"escrow".to_vec());
}

#[test]
fn addresses_compare_by_bytes() {
    let mut bytes = [5u8; 32];
    assert!(same_address(&Address::new(bytes), &Address::new(bytes)));
    bytes[31] = 6;
    assert!(!same_address(&Address::new([5u8; 32]), &Address::new(bytes)));
}
