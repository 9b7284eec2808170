use amm::addr::Addr;
use amm::error::AmmError;
use amm::instruction::AmmInstruction;
use amm::state::Vault;

fn addr(b: u8) -> Addr {
    Addr::new(vec![b; 32]).unwrap()
}

#[test]
fn addr_accepts_only_32_bytes() {
    assert!(Addr::new(vec![0; 32]).is_some());
    assert!(Addr::new(vec![0; 31]).is_none());
    assert!(Addr::new(vec![0; 33]).is_none());
    assert!(Addr::new(Vec::new()).is_none());
    let a = Addr::new((0u8..32).collect()).unwrap();
    assert_eq!(a.as_bytes().len(), 32);
    assert_eq!(a.dup(), a);
    assert!(a.equals(&a.dup()));
    assert!(!a.equals(&addr(9)));
}

#[test]
fn vault_layout_is_16_bytes_little_endian() {
    let v = Vault { token_x_amount: 0x0102030405060708, token_y_amount: 0x1122334455667788 };
    let bytes = v.to_bytes();
    assert_eq!(
        bytes,
        vec![
            0x08, 0x07, 0x06, 0x05, 0x04, 0x03, 0x02, 0x01, 0x88, 0x77, 0x66, 0x55, 0x44, 0x33,
            0x22, 0x11,
        ]
    );
}

#[test]
fn vault_round_trip() {
    let v = Vault { token_x_amount: 100, token_y_amount: 300 };
    let bytes = v.to_bytes();
    assert_eq!(Vault::try_from_bytes(&bytes), Some(v));
    let extremes = Vault { token_x_amount: u64::MAX, token_y_amount: 0 };
    assert_eq!(Vault::try_from_bytes(&extremes.to_bytes()), Some(extremes));
}

#[test]
fn vault_rejects_wrong_length() {
    assert_eq!(Vault::try_from_bytes(&[]), None);
    assert_eq!(Vault::try_from_bytes(&[0; 15]), None);
    assert_eq!(Vault::try_from_bytes(&[0; 17]), None);
}

#[test]
fn init_instruction_wire_form() {
    let ix = AmmInstruction::InitMarket { amount_x: 100, amount_y: 300 };
    let bytes = ix.to_bytes();
    assert_eq!(bytes.len(), 17);
    assert_eq!(bytes[0], 0);
    assert_eq!(&bytes[1..9], &[100, 0, 0, 0, 0, 0, 0, 0]);
    assert_eq!(&bytes[9..17], &[44, 1, 0, 0, 0, 0, 0, 0]);
    assert_eq!(AmmInstruction::try_from_bytes(&bytes), Some(ix));
}

#[test]
fn swap_instruction_wire_form() {
    let pk = addr(7);
    let ix = AmmInstruction::Swap { amount: 258, minter_pk: pk.dup() };
    let bytes = ix.to_bytes();
    assert_eq!(bytes.len(), 41);
    assert_eq!(bytes[0], 1);
    assert_eq!(&bytes[1..9], &[2, 1, 0, 0, 0, 0, 0, 0]);
    assert_eq!(&bytes[9..41], pk.as_bytes().as_slice());
    assert_eq!(AmmInstruction::try_from_bytes(&bytes), Some(ix));
}

#[test]
fn instruction_decode_rejects_malformed_bytes() {
    assert_eq!(AmmInstruction::try_from_bytes(&[]), None);
    // Unknown discriminant.
    assert_eq!(AmmInstruction::try_from_bytes(&[2; 17]), None);
    // Truncated and padded forms of both operations.
    assert_eq!(AmmInstruction::try_from_bytes(&[0; 16]), None);
    assert_eq!(AmmInstruction::try_from_bytes(&[0; 18]), None);
    let mut swap_bytes = (AmmInstruction::Swap { amount: 5, minter_pk: addr(1) }).to_bytes();
    swap_bytes.pop();
    assert_eq!(AmmInstruction::try_from_bytes(&swap_bytes), None);
    // A swap payload under the init discriminant has the wrong length.
    let mut relabeled = (AmmInstruction::Swap { amount: 5, minter_pk: addr(1) }).to_bytes();
    relabeled[0] = 0;
    assert_eq!(AmmInstruction::try_from_bytes(&relabeled), None);
}

#[test]
fn error_codes_are_stable() {
    assert_eq!(AmmError::IdenticalMinter.to_code(), 0);
    assert_eq!(AmmError::AlreadyInUse.to_code(), 1);
    assert_eq!(AmmError::AmountZero.to_code(), 2);
    assert_eq!(AmmError::Overflow.to_code(), 3);
    assert_eq!(AmmError::Underflow.to_code(), 4);
    assert_eq!(AmmError::IncorrectSwapPk.to_code(), 5);
    assert_eq!(AmmError::CalculatedZeroSwap.to_code(), 6);
    assert_eq!(AmmError::InvalidVault.to_code(), 7);
}

#[test]
fn error_messages() {
    assert_eq!(AmmError::IdenticalMinter.message(), "Token X, Y has identical minter");
    assert_eq!(AmmError::AmountZero.message(), "Amount must be not zero");
    assert_eq!(AmmError::InvalidVault.message(), "Invalid vault");
}

#[test]
fn vault_persisted_form_is_unique() {
    let d: Vec<u8> = (0u8..16).collect();
    let v = Vault::try_from_bytes(&d).expect("decode");
    assert_eq!(v.to_bytes(), d);
}

#[test]
fn instruction_wire_form_is_unique() {
    let mut d = vec![1u8];
    d.extend_from_slice(&[9, 8, 7, 6, 5, 4, 3, 2]);
    d.extend_from_slice(&[42; 32]);
    let ix = AmmInstruction::try_from_bytes(&d).expect("decode");
    assert_eq!(ix.to_bytes(), d);
}
