//! Wire-format and record-layout tests.
use token_escrow::error::EscrowError;
use token_escrow::instruction::EscrowInstruction;
use token_escrow::state::{EscrowState, ESCROW_RECORD_LEN};

fn secret(b: u8) -> Vec<u8> {
    vec![b; 32]
}

#[test]
fn init_payload_round_trip() {
    let i = EscrowInstruction::InitEscrow {
        amount_x: 1000,
        amount_y: 500,
        pass: secret(7),
    };
    let bytes = i.pack();
    assert_eq!(bytes.len(), 49);
    assert_eq!(bytes[0], 0);
    match EscrowInstruction::unpack(&bytes).unwrap() {
        EscrowInstruction::InitEscrow { amount_x, amount_y, pass } => {
            assert_eq!(amount_x, 1000);
            assert_eq!(amount_y, 500);
            assert_eq!(pass, secret(7));
        }
        _ => panic!("wrong variant"),
    }
}

#[test]
fn exchange_payload_round_trip() {
    let i = EscrowInstruction::Exchange { pass: secret(9) };
    let bytes = i.pack();
    assert_eq!(bytes.len(), 33);
    assert_eq!(bytes[0], 1);
    match EscrowInstruction::unpack(&bytes).unwrap() {
        EscrowInstruction::Exchange { pass } => assert_eq!(pass, secret(9)),
        _ => panic!("wrong variant"),
    }
}

#[test]
fn withdraw_payload_round_trip() {
    let i = EscrowInstruction::Withdraw { pass: secret(3) };
    let bytes = i.pack();
    assert_eq!(bytes.len(), 33);
    assert_eq!(bytes[0], 2);
    match EscrowInstruction::unpack(&bytes).unwrap() {
        EscrowInstruction::Withdraw { pass } => assert_eq!(pass, secret(3)),
        _ => panic!("wrong variant"),
    }
}

#[test]
fn amounts_are_little_endian() {
    let i = EscrowInstruction::InitEscrow {
        amount_x: 0x0102030405060708,
        amount_y: 0x1122334455667788,
        pass: secret(0),
    };
    let bytes = i.pack();
    assert_eq!(&bytes[1..9], &[8, 7, 6, 5, 4, 3, 2, 1]);
    assert_eq!(&bytes[9..17], &[0x88, 0x77, 0x66, 0x55, 0x44, 0x33, 0x22, 0x11]);
}

#[test]
fn unpack_rejects_empty_payload() {
    assert!(matches!(
        EscrowInstruction::unpack(&[]),
        Err(EscrowError::MalformedInstruction)
    ));
}

#[test]
fn unpack_rejects_unknown_tag() {
    let mut bytes = vec![3u8];
    bytes.extend_from_slice(&[0u8; 32]);
    assert!(matches!(
        EscrowInstruction::unpack(&bytes),
        Err(EscrowError::MalformedInstruction)
    ));
}

#[test]
fn unpack_rejects_missing_bytes() {
    let mut bytes = vec![0u8];
    bytes.extend_from_slice(&[0u8; 47]);
    assert!(matches!(
        EscrowInstruction::unpack(&bytes),
        Err(EscrowError::MalformedInstruction)
    ));
}

#[test]
fn unpack_rejects_trailing_bytes() {
    let mut bytes = EscrowInstruction::Exchange { pass: secret(1) }.pack();
    bytes.push(0);
    assert!(matches!(
        EscrowInstruction::unpack(&bytes),
        Err(EscrowError::MalformedInstruction)
    ));
}

#[test]
fn record_round_trip() {
    let st = EscrowState {
        is_initialized: true,
        initializer_pubkey: vec![1; 32],
        temp_token_account_pubkey: vec![2; 32],
        initializer_token_to_recive_account: vec![3; 32],
        expected_amount: 500,
        giving_amount: 1000,
    };
    let bytes = st.pack();
    assert_eq!(bytes.len(), ESCROW_RECORD_LEN);
    let back = EscrowState::unpack(&bytes).unwrap();
    assert!(back.is_initialized);
    assert_eq!(back.initializer_pubkey, vec![1; 32]);
    assert_eq!(back.temp_token_account_pubkey, vec![2; 32]);
    assert_eq!(back.initializer_token_to_recive_account, vec![3; 32]);
    assert_eq!(back.expected_amount, 500);
    assert_eq!(back.giving_amount, 1000);
}

#[test]
fn fresh_record_is_uninitialized() {
    let back = EscrowState::unpack(&vec![0u8; ESCROW_RECORD_LEN]).unwrap();
    assert!(!back.is_initialized);
    assert_eq!(back.expected_amount, 0);
    assert_eq!(back.giving_amount, 0);
}

#[test]
fn record_rejects_wrong_size() {
    assert!(matches!(
        EscrowState::unpack(&vec![0u8; ESCROW_RECORD_LEN - 1]),
        Err(EscrowError::MalformedInstruction)
    ));
    assert!(matches!(
        EscrowState::unpack(&vec![0u8; ESCROW_RECORD_LEN + 1]),
        Err(EscrowError::MalformedInstruction)
    ));
}

#[test]
fn record_rejects_bad_flag() {
    let mut bytes = vec![0u8; ESCROW_RECORD_LEN];
    bytes[0] = 2;
    assert!(matches!(
        EscrowState::unpack(&bytes),
        Err(EscrowError::MalformedInstruction)
    ));
}
