use pinocchio_escrow::error::EscrowError;
use pinocchio_escrow::instruction::{
    decode_instruction, EscrowInstruction, Instruction, MakeArgs, MyProgramInstruction,
};
use pinocchio_escrow::state::Escrow;

fn args_bytes(seed: u64, amount: u64, receive: u64, bump: u8) -> Vec<u8> {
    let mut v = Vec::new();
    v.extend_from_slice(&seed.to_le_bytes());
    v.extend_from_slice(&amount.to_le_bytes());
    v.extend_from_slice(&receive.to_le_bytes());
    v.push(bump);
    v
}

fn record_bytes() -> Vec<u8> {
    let mut v = Vec::new();
    v.extend_from_slice(&[1u8; 32]);
    v.extend_from_slice(&[2u8; 32]);
    v.extend_from_slice(&[3u8; 32]);
    v.extend_from_slice(&1000u64.to_le_bytes());
    v.extend_from_slice(&500u64.to_le_bytes());
    v.extend_from_slice(&7u64.to_le_bytes());
    v.push(254);
    v
}

#[test]
fn make_args_decode_reads_fields() {
    let a = MakeArgs::try_from(&args_bytes(7, 1000, 500, 255)).unwrap();
    assert_eq!(a.seed(), 7);
    assert_eq!(a.amount(), 1000);
    assert_eq!(a.receive(), 500);
    assert_eq!(a.bump, 255);
}

#[test]
fn make_args_little_endian_extremes() {
    let a = MakeArgs::try_from(&args_bytes(u64::MAX, 0x0102030405060708, 0, 0)).unwrap();
    assert_eq!(a.seed(), u64::MAX);
    assert_eq!(a.amount(), 0x0102030405060708);
    assert_eq!(a.receive(), 0);
}

#[test]
fn make_args_round_trip() {
    let bytes = args_bytes(42, 9, 12345678901234, 17);
    let a = MakeArgs::try_from(&bytes).unwrap();
    assert_eq!(a.to_bytes(), bytes);
    let b = MakeArgs::try_from(&a.to_bytes()).unwrap();
    assert_eq!(b.seed(), 42);
    assert_eq!(b.amount(), 9);
    assert_eq!(b.receive(), 12345678901234);
    assert_eq!(b.bump, 17);
}

#[test]
fn make_args_wrong_length_rejected() {
    let bytes = args_bytes(1, 2, 3, 4);
    assert_eq!(MakeArgs::try_from(&bytes[..24]).unwrap_err(), EscrowError::InvalidInstructionData);
    let mut long = bytes.clone();
    long.push(0);
    assert_eq!(MakeArgs::try_from(&long).unwrap_err(), EscrowError::InvalidInstructionData);
    assert_eq!(MakeArgs::try_from(&[]).unwrap_err(), EscrowError::InvalidInstructionData);
}

#[test]
fn escrow_record_round_trip() {
    let bytes = record_bytes();
    assert_eq!(bytes.len(), Escrow::LEN);
    let e = Escrow::from_bytes(&bytes).unwrap();
    assert_eq!(e.maker, [1u8; 32]);
    assert_eq!(e.mint_a, [2u8; 32]);
    assert_eq!(e.mint_b, [3u8; 32]);
    assert_eq!(u64::from_le_bytes(e.amount), 1000);
    assert_eq!(u64::from_le_bytes(e.receive), 500);
    assert_eq!(u64::from_le_bytes(e.seed), 7);
    assert_eq!(e.bump, 254);
    assert_eq!(e.to_bytes(), bytes);
}

#[test]
fn escrow_record_wrong_length_rejected() {
    let bytes = record_bytes();
    assert_eq!(Escrow::from_bytes(&bytes[..120]).unwrap_err(), EscrowError::InvalidAccountData);
    let mut long = bytes.clone();
    long.push(1);
    assert_eq!(Escrow::from_bytes(&long).unwrap_err(), EscrowError::InvalidAccountData);
    assert_eq!(Escrow::from_bytes(&[]).unwrap_err(), EscrowError::InvalidAccountData);
}

#[test]
fn opcodes_decode() {
    assert_eq!(EscrowInstruction::try_from(&0).unwrap(), EscrowInstruction::Make);
    assert_eq!(EscrowInstruction::try_from(&1).unwrap(), EscrowInstruction::Take);
    assert_eq!(EscrowInstruction::try_from(&2).unwrap(), EscrowInstruction::Refund);
    assert_eq!(EscrowInstruction::try_from(&3).unwrap_err(), EscrowError::InvalidInstructionData);
    assert_eq!(EscrowInstruction::try_from(&255).unwrap_err(), EscrowError::InvalidInstructionData);
}

#[test]
fn scaffold_opcodes_decode() {
    assert_eq!(MyProgramInstruction::try_from(&0).unwrap(), MyProgramInstruction::InitializeState);
    assert_eq!(MyProgramInstruction::try_from(&1).unwrap(), MyProgramInstruction::UpdateState);
    assert_eq!(MyProgramInstruction::try_from(&2).unwrap_err(), EscrowError::InvalidInstructionData);
}

#[test]
fn instruction_decode() {
    let mut data = vec![0u8];
    data.extend_from_slice(&args_bytes(7, 1000, 500, 3));
    match decode_instruction(&data).unwrap() {
        Instruction::Make(a) => {
            assert_eq!(a.seed(), 7);
            assert_eq!(a.amount(), 1000);
            assert_eq!(a.receive(), 500);
            assert_eq!(a.bump, 3);
        }
        _ => panic!("expected Make"),
    }
    assert!(matches!(decode_instruction(&[1]).unwrap(), Instruction::Take));
    assert!(matches!(decode_instruction(&[2]).unwrap(), Instruction::Refund));
    assert_eq!(decode_instruction(&[1, 0]).unwrap_err(), EscrowError::InvalidInstructionData);
    assert_eq!(decode_instruction(&[2, 9, 9]).unwrap_err(), EscrowError::InvalidInstructionData);
    assert_eq!(decode_instruction(&[]).unwrap_err(), EscrowError::InvalidInstructionData);
    assert_eq!(decode_instruction(&[3]).unwrap_err(), EscrowError::InvalidInstructionData);
    assert_eq!(decode_instruction(&data[..25]).unwrap_err(), EscrowError::InvalidInstructionData);
}
