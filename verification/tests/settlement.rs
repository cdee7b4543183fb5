//! Settlement-engine scenarios: initiation, exchange, cancellation and the
//! dispatcher, run against the real address-derivation and token-ledger
//! identities.
use token_escrow::accounts::{
    AccountView, CancelAccounts, ExchangeAccounts, InitAccounts, OpAccounts, TokenAccount,
};
use token_escrow::authority::token_ledger_id;
use token_escrow::error::EscrowError;
use token_escrow::instruction::EscrowInstruction;
use token_escrow::processor::Processor;
use token_escrow::state::{EscrowState, ESCROW_RECORD_LEN};

fn key(b: u8) -> Vec<u8> {
    vec![b; 32]
}

fn program_id() -> Vec<u8> {
    key(0xAA)
}

fn pass() -> Vec<u8> {
    key(0x50)
}

fn fresh_init_accounts() -> InitAccounts {
    InitAccounts {
        initializer: AccountView {
            key: key(1),
            is_signer: true,
            lamports: 10_000,
            owner: key(0),
            data: vec![],
        },
        temp_token: TokenAccount {
            key: key(2),
            authority: key(1),
            amount: 1000,
            lamports: 2_000_000,
        },
        token_to_receive: AccountView {
            key: key(3),
            is_signer: false,
            lamports: 2_000_000,
            owner: token_ledger_id(),
            data: vec![],
        },
        escrow: AccountView {
            key: key(4),
            is_signer: false,
            lamports: 1_700_000,
            owner: program_id(),
            data: vec![0u8; ESCROW_RECORD_LEN],
        },
        rent_minimum: 1_600_000,
    }
}

fn derived_authority() -> Vec<u8> {
    let pid = solana_program::pubkey::Pubkey::try_from(program_id().as_slice()).unwrap();
    let p = pass();
    let seeds: [&[u8]; 2] = [b"escrow", p.as_slice()];
    let (address, _bump) =
        solana_program::pubkey::Pubkey::try_find_program_address(&seeds, &pid).unwrap();
    address.to_bytes().to_vec()
}

fn initiated_accounts() -> InitAccounts {
    let mut a = fresh_init_accounts();
    Processor::process_init_escrow(&program_id(), &mut a, 1000, 500, &pass()).unwrap();
    a
}

fn exchange_accounts_after_init() -> ExchangeAccounts {
    let a = initiated_accounts();
    ExchangeAccounts {
        taker: AccountView {
            key: key(9),
            is_signer: true,
            lamports: 5_000,
            owner: key(0),
            data: vec![],
        },
        takers_sending: TokenAccount {
            key: key(10),
            authority: key(9),
            amount: 500,
            lamports: 2_000_000,
        },
        takers_receiving: TokenAccount {
            key: key(11),
            authority: key(9),
            amount: 0,
            lamports: 2_000_000,
        },
        custody: a.temp_token,
        initializer_main: a.initializer,
        initializers_receiving: TokenAccount {
            key: key(3),
            authority: key(1),
            amount: 0,
            lamports: 2_000_000,
        },
        escrow: a.escrow,
    }
}

#[test]
fn token_ledger_id_matches_spl_token() {
    assert_eq!(token_ledger_id(), spl_token::id().to_bytes().to_vec());
}

#[test]
fn initiate_succeeds_on_fresh_accounts() {
    let mut a = fresh_init_accounts();
    let r = Processor::process_init_escrow(&program_id(), &mut a, 1000, 500, &pass());
    assert!(r.is_ok());
    let record = EscrowState::unpack(&a.escrow.data).unwrap();
    assert!(record.is_initialized);
    assert_eq!(record.giving_amount, 1000);
    assert_eq!(record.expected_amount, 500);
    assert_eq!(record.initializer_pubkey, key(1));
    assert_eq!(record.temp_token_account_pubkey, key(2));
    assert_eq!(record.initializer_token_to_recive_account, key(3));
    // Custody of the locked asset moved to the derived authority.
    assert_eq!(a.temp_token.authority, derived_authority());
    assert_eq!(a.temp_token.amount, 1000);
}

#[test]
fn second_initiate_fails_already_initialized() {
    let mut a = initiated_accounts();
    let before = a.escrow.data.clone();
    let r = Processor::process_init_escrow(&program_id(), &mut a, 1, 2, &pass());
    assert!(matches!(r, Err(EscrowError::AlreadyInitialized)));
    assert_eq!(a.escrow.data, before);
}

#[test]
fn initiate_requires_signature() {
    let mut a = fresh_init_accounts();
    a.initializer.is_signer = false;
    let r = Processor::process_init_escrow(&program_id(), &mut a, 1000, 500, &pass());
    assert!(matches!(r, Err(EscrowError::MissingSignature)));
    // No mutation on failure.
    assert_eq!(a.temp_token.authority, key(1));
    assert_eq!(a.escrow.data, vec![0u8; ESCROW_RECORD_LEN]);
}

#[test]
fn initiate_requires_token_ledger_owner() {
    let mut a = fresh_init_accounts();
    a.token_to_receive.owner = key(8);
    let r = Processor::process_init_escrow(&program_id(), &mut a, 1000, 500, &pass());
    assert!(matches!(r, Err(EscrowError::IncorrectOwner)));
}

#[test]
fn initiate_requires_rent_exemption() {
    let mut a = fresh_init_accounts();
    a.escrow.lamports = a.rent_minimum - 1;
    let r = Processor::process_init_escrow(&program_id(), &mut a, 1000, 500, &pass());
    assert!(matches!(r, Err(EscrowError::NotRentExempt)));
}

#[test]
fn initiate_requires_initiator_authority_over_locked_asset() {
    let mut a = fresh_init_accounts();
    a.temp_token.authority = key(42);
    let r = Processor::process_init_escrow(&program_id(), &mut a, 1000, 500, &pass());
    assert!(matches!(r, Err(EscrowError::ExternalLedgerError)));
}

#[test]
fn exchange_settles_both_transfers_and_closes() {
    let mut e = exchange_accounts_after_init();
    let r = Processor::exchange_token(&program_id(), &mut e, &pass());
    assert!(r.is_ok());
    // The initiator received exactly the 500 expected units of asset Y.
    assert_eq!(e.initializers_receiving.amount, 500);
    assert_eq!(e.takers_sending.amount, 0);
    // The taker received the custody account's entire 1000 units of asset X.
    assert_eq!(e.takers_receiving.amount, 1000);
    // The custody account is empty and closed.
    assert_eq!(e.custody.amount, 0);
    assert_eq!(e.custody.lamports, 0);
    // The record account is zero-length and closed.
    assert_eq!(e.escrow.data.len(), 0);
    assert_eq!(e.escrow.lamports, 0);
    // Both reserved balances were credited to the initiator.
    assert_eq!(e.initializer_main.lamports, 10_000 + 2_000_000 + 1_700_000);
}

#[test]
fn exchange_rejects_wrong_receiving_account() {
    let mut e = exchange_accounts_after_init();
    e.initializers_receiving.key = key(77);
    let r = Processor::exchange_token(&program_id(), &mut e, &pass());
    assert!(matches!(r, Err(EscrowError::AccountMismatch)));
    // No transfer was attempted.
    assert_eq!(e.takers_sending.amount, 500);
    assert_eq!(e.takers_receiving.amount, 0);
    assert_eq!(e.initializers_receiving.amount, 0);
    assert_eq!(e.custody.amount, 1000);
    assert_eq!(e.escrow.data.len(), ESCROW_RECORD_LEN);
}

#[test]
fn exchange_rejects_wrong_custody_account() {
    let mut e = exchange_accounts_after_init();
    e.custody.key = key(78);
    let r = Processor::exchange_token(&program_id(), &mut e, &pass());
    assert!(matches!(r, Err(EscrowError::AccountMismatch)));
}

#[test]
fn exchange_rejects_wrong_initiator_account() {
    let mut e = exchange_accounts_after_init();
    e.initializer_main.key = key(79);
    let r = Processor::exchange_token(&program_id(), &mut e, &pass());
    assert!(matches!(r, Err(EscrowError::AccountMismatch)));
}

#[test]
fn exchange_requires_taker_signature() {
    let mut e = exchange_accounts_after_init();
    e.taker.is_signer = false;
    let r = Processor::exchange_token(&program_id(), &mut e, &pass());
    assert!(matches!(r, Err(EscrowError::MissingSignature)));
}

#[test]
fn exchange_rejects_insufficient_taker_balance() {
    let mut e = exchange_accounts_after_init();
    e.takers_sending.amount = 499;
    let r = Processor::exchange_token(&program_id(), &mut e, &pass());
    assert!(matches!(r, Err(EscrowError::ExternalLedgerError)));
    assert_eq!(e.takers_sending.amount, 499);
}

#[test]
fn exchange_rejects_wrong_secret() {
    let mut e = exchange_accounts_after_init();
    let wrong = key(0x51);
    let r = Processor::exchange_token(&program_id(), &mut e, &wrong);
    // The authority derived from the wrong secret does not control custody.
    assert!(matches!(r, Err(EscrowError::ExternalLedgerError)));
    assert_eq!(e.custody.amount, 1000);
}

#[test]
fn exchange_rejects_balance_overflow() {
    let mut e = exchange_accounts_after_init();
    e.initializers_receiving.amount = u64::MAX;
    let r = Processor::exchange_token(&program_id(), &mut e, &pass());
    assert!(matches!(r, Err(EscrowError::ArithmeticOverflow)));
    assert_eq!(e.initializers_receiving.amount, u64::MAX);
}

#[test]
fn cancel_reclaims_full_locked_amount() {
    let a = initiated_accounts();
    let mut c = CancelAccounts {
        initializer: AccountView {
            is_signer: true,
            ..a.initializer
        },
        initializer_receiving: TokenAccount {
            key: key(20),
            authority: key(1),
            amount: 0,
            lamports: 2_000_000,
        },
        custody: a.temp_token,
        escrow: a.escrow,
    };
    let r = Processor::cancel_escrow(&program_id(), &mut c, &pass());
    assert!(r.is_ok());
    assert_eq!(c.initializer_receiving.amount, 1000);
    assert_eq!(c.custody.amount, 0);
    assert_eq!(c.custody.lamports, 0);
    assert_eq!(c.escrow.data.len(), 0);
    assert_eq!(c.escrow.lamports, 0);
    assert_eq!(c.initializer.lamports, 10_000 + 2_000_000 + 1_700_000);
}

#[test]
fn cancel_rejects_other_caller() {
    let a = initiated_accounts();
    let mut c = CancelAccounts {
        initializer: AccountView {
            key: key(66),
            is_signer: true,
            lamports: 10_000,
            owner: key(0),
            data: vec![],
        },
        initializer_receiving: TokenAccount {
            key: key(20),
            authority: key(66),
            amount: 0,
            lamports: 2_000_000,
        },
        custody: a.temp_token,
        escrow: a.escrow,
    };
    let r = Processor::cancel_escrow(&program_id(), &mut c, &pass());
    assert!(matches!(r, Err(EscrowError::AccountMismatch)));
    assert_eq!(c.custody.amount, 1000);
    assert_eq!(c.escrow.data.len(), ESCROW_RECORD_LEN);
}

#[test]
fn cancel_rejects_uninitialized_record() {
    let a = fresh_init_accounts();
    let mut c = CancelAccounts {
        initializer: a.initializer,
        initializer_receiving: TokenAccount {
            key: key(20),
            authority: key(1),
            amount: 0,
            lamports: 2_000_000,
        },
        custody: a.temp_token,
        escrow: a.escrow,
    };
    let r = Processor::cancel_escrow(&program_id(), &mut c, &pass());
    assert!(matches!(r, Err(EscrowError::AccountMismatch)));
}

#[test]
fn process_dispatches_initiate() {
    let data = EscrowInstruction::InitEscrow {
        amount_x: 1000,
        amount_y: 500,
        pass: pass(),
    }
    .pack();
    let mut bundle = OpAccounts::Init(fresh_init_accounts());
    let r = Processor::process(&program_id(), &mut bundle, &data);
    assert!(r.is_ok());
    match bundle {
        OpAccounts::Init(a) => {
            let record = EscrowState::unpack(&a.escrow.data).unwrap();
            assert!(record.is_initialized);
            assert_eq!(record.giving_amount, 1000);
        }
        _ => panic!("bundle variant changed"),
    }
}

#[test]
fn process_runs_full_swap() {
    let data = EscrowInstruction::Exchange { pass: pass() }.pack();
    let mut bundle = OpAccounts::Exchange(exchange_accounts_after_init());
    let r = Processor::process(&program_id(), &mut bundle, &data);
    assert!(r.is_ok());
    match bundle {
        OpAccounts::Exchange(e) => {
            assert_eq!(e.initializers_receiving.amount, 500);
            assert_eq!(e.takers_receiving.amount, 1000);
        }
        _ => panic!("bundle variant changed"),
    }
}

#[test]
fn process_handles_cancellation() {
    let a = initiated_accounts();
    let data = EscrowInstruction::Withdraw { pass: pass() }.pack();
    let mut bundle = OpAccounts::Cancel(CancelAccounts {
        initializer: AccountView {
            is_signer: true,
            ..a.initializer
        },
        initializer_receiving: TokenAccount {
            key: key(20),
            authority: key(1),
            amount: 0,
            lamports: 2_000_000,
        },
        custody: a.temp_token,
        escrow: a.escrow,
    });
    let r = Processor::process(&program_id(), &mut bundle, &data);
    assert!(r.is_ok());
    match bundle {
        OpAccounts::Cancel(c) => assert_eq!(c.initializer_receiving.amount, 1000),
        _ => panic!("bundle variant changed"),
    }
}

#[test]
fn process_rejects_malformed_payload() {
    let mut bundle = OpAccounts::Init(fresh_init_accounts());
    let r = Processor::process(&program_id(), &mut bundle, &[9u8, 9, 9]);
    assert!(matches!(r, Err(EscrowError::MalformedInstruction)));
}

#[test]
fn process_rejects_mismatched_bundle() {
    let data = EscrowInstruction::Exchange { pass: pass() }.pack();
    let mut bundle = OpAccounts::Init(fresh_init_accounts());
    let r = Processor::process(&program_id(), &mut bundle, &data);
    assert!(matches!(r, Err(EscrowError::AccountMismatch)));
}
