use pinocchio_escrow::address::{escrow_seed_bytes, escrow_tag_bytes};
use pinocchio_escrow::error::EscrowError;
use pinocchio_escrow::instruction::MakeArgs;
use pinocchio_escrow::processor::{
    check_refund, check_take, make_derivation_seeds, make_with_address, reclaim_lamports, refund, refund_with_address,
    same_key, take, take_with_address, AccountState, Action, EscrowSigner,
};
use pinocchio_escrow::state::{Escrow, Pubkey};

const PROGRAM: Pubkey = [9u8; 32];
const MAKER: Pubkey = [10u8; 32];
const MINT_A: Pubkey = [11u8; 32];
const MINT_B: Pubkey = [12u8; 32];
const MAKER_ATA_A: Pubkey = [13u8; 32];
const VAULT: Pubkey = [14u8; 32];
const ESCROW: Pubkey = [15u8; 32];
const TAKER: Pubkey = [16u8; 32];
const MAKER_ATA_B: Pubkey = [17u8; 32];
const TAKER_ATA_A: Pubkey = [18u8; 32];
const TAKER_ATA_B: Pubkey = [19u8; 32];
const SYSTEM: Pubkey = [0u8; 32];
const TOKEN: Pubkey = [20u8; 32];

fn acct(key: Pubkey, signer: bool) -> AccountState {
    AccountState { key, owner: SYSTEM, is_signer: signer, data: Vec::new() }
}

fn make_args(seed: u64, amount: u64, receive: u64, bump: u8) -> MakeArgs {
    let mut v = Vec::new();
    v.extend_from_slice(&seed.to_le_bytes());
    v.extend_from_slice(&amount.to_le_bytes());
    v.extend_from_slice(&receive.to_le_bytes());
    v.push(bump);
    MakeArgs::try_from(&v).unwrap()
}

fn make_accounts() -> Vec<AccountState> {
    vec![
        acct(MAKER, true),
        acct(MINT_A, false),
        acct(MINT_B, false),
        acct(MAKER_ATA_A, false),
        acct(VAULT, false),
        acct(ESCROW, false),
        acct(SYSTEM, false),
        acct(TOKEN, false),
    ]
}

/// Runs a Make of 1000 mint A for 500 mint B with seed 7 and returns the
/// escrow account it leaves behind.
fn escrow_after_make() -> AccountState {
    let plan = make_with_address(&PROGRAM, &make_accounts(), &make_args(7, 1000, 500, 254), Some(ESCROW), 1_500_000)
        .unwrap();
    let record = match plan[1] {
        Action::WriteEscrow { record, .. } => record,
        _ => panic!("expected the record write"),
    };
    AccountState { key: ESCROW, owner: PROGRAM, is_signer: false, data: record.to_bytes() }
}

fn take_accounts(escrow: AccountState) -> Vec<AccountState> {
    vec![
        acct(TAKER, true),
        acct(MAKER, false),
        acct(MINT_A, false),
        acct(MINT_B, false),
        acct(MAKER_ATA_B, false),
        acct(TAKER_ATA_A, false),
        acct(TAKER_ATA_B, false),
        acct(VAULT, false),
        escrow,
        acct(SYSTEM, false),
        acct(TOKEN, false),
    ]
}

fn refund_accounts(escrow: AccountState) -> Vec<AccountState> {
    vec![
        acct(MAKER, true),
        acct(MINT_A, false),
        acct(MAKER_ATA_A, false),
        acct(VAULT, false),
        escrow,
        acct(SYSTEM, false),
        acct(TOKEN, false),
    ]
}

/// Net token change of `key` over a plan.
fn delta(plan: &[Action], key: Pubkey) -> i128 {
    let mut d: i128 = 0;
    for a in plan {
        if let Action::TransferChecked { from, to, amount, .. } = a {
            if *to == key {
                d += *amount as i128;
            }
            if *from == key {
                d -= *amount as i128;
            }
        }
    }
    d
}

fn mint_moved(plan: &[Action], mint_key: Pubkey) -> bool {
    plan.iter().any(|a| matches!(a, Action::TransferChecked { mint, .. } if *mint == mint_key))
}

fn closes_to_maker(plan: &[Action]) -> bool {
    let n = plan.len();
    matches!(plan[n - 2], Action::CloseAccount { account, destination, authority, .. }
        if account == VAULT && destination == MAKER && authority == ESCROW)
        && matches!(plan[n - 1], Action::ReclaimLamports { source, destination }
            if source == ESCROW && destination == MAKER)
}

#[test]
fn make_deposits_into_vault() {
    let plan = make_with_address(&PROGRAM, &make_accounts(), &make_args(7, 1000, 500, 254), Some(ESCROW), 1_500_000)
        .unwrap();
    assert_eq!(plan.len(), 3);
    match plan[0] {
        Action::CreateAccount { from, to, space, owner, lamports, signer } => {
            assert_eq!(from, MAKER);
            assert_eq!(to, ESCROW);
            assert_eq!(space, Escrow::LEN as u64);
            assert_eq!(owner, PROGRAM);
            assert_eq!(lamports, 1_500_000);
            assert_eq!(signer.maker, MAKER);
            assert_eq!(u64::from_le_bytes(signer.seed), 7);
            assert_eq!(signer.bump, 254);
        }
        _ => panic!("expected account creation"),
    }
    match plan[1] {
        Action::WriteEscrow { account, record } => {
            assert_eq!(account, ESCROW);
            assert_eq!(record.maker, MAKER);
            assert_eq!(record.mint_a, MINT_A);
            assert_eq!(record.mint_b, MINT_B);
            assert_eq!(u64::from_le_bytes(record.amount), 1000);
            assert_eq!(u64::from_le_bytes(record.receive), 500);
            assert_eq!(u64::from_le_bytes(record.seed), 7);
            assert_eq!(record.bump, 254);
        }
        _ => panic!("expected the record write"),
    }
    match plan[2] {
        Action::TransferChecked { authority, mint, escrow_signer, .. } => {
            assert_eq!(authority, MAKER);
            assert_eq!(mint, MINT_A);
            assert!(escrow_signer.is_none());
        }
        _ => panic!("expected the deposit"),
    }
    assert_eq!(delta(&plan, VAULT), 1000);
    assert_eq!(delta(&plan, MAKER_ATA_A), -1000);
}

#[test]
fn make_rejections() {
    let args = make_args(7, 1000, 500, 254);
    let mut accounts = make_accounts();
    assert_eq!(
        make_with_address(&PROGRAM, &accounts[..7], &args, Some(ESCROW), 1).unwrap_err(),
        EscrowError::NotEnoughAccountKeys
    );
    assert_eq!(
        make_with_address(&PROGRAM, &accounts, &args, None, 1).unwrap_err(),
        EscrowError::InvalidSeeds
    );
    assert_eq!(
        make_with_address(&PROGRAM, &accounts, &args, Some(VAULT), 1).unwrap_err(),
        EscrowError::AddressMismatch
    );
    accounts[0].is_signer = false;
    assert_eq!(
        make_with_address(&PROGRAM, &accounts, &args, Some(ESCROW), 1).unwrap_err(),
        EscrowError::MissingRequiredSignature
    );
}

#[test]
fn take_is_complete_swap() {
    let accounts = take_accounts(escrow_after_make());
    let rec = check_take(&PROGRAM, &accounts).unwrap();
    assert_eq!(rec.maker, MAKER);
    let plan = take_with_address(&accounts, &rec, Some((ESCROW, 254))).unwrap();
    assert_eq!(plan.len(), 4);
    assert_eq!(delta(&plan, MAKER_ATA_B), 500);
    assert_eq!(delta(&plan, TAKER_ATA_B), -500);
    assert_eq!(delta(&plan, TAKER_ATA_A), 1000);
    assert_eq!(delta(&plan, VAULT), -1000);
    assert!(closes_to_maker(&plan));
    match plan[1] {
        Action::TransferChecked { authority, escrow_signer, .. } => {
            assert_eq!(authority, ESCROW);
            let s = escrow_signer.unwrap();
            assert_eq!(s.maker, MAKER);
            assert_eq!(s.bump, 254);
        }
        _ => panic!("expected the vault payout"),
    }
}

#[test]
fn take_rejects_mismatched_accounts() {
    let escrow = escrow_after_make();
    let mut accounts = take_accounts(escrow.clone());
    accounts[1].key = TAKER;
    assert_eq!(check_take(&PROGRAM, &accounts).unwrap_err(), EscrowError::MakerMismatch);
    let mut accounts = take_accounts(escrow.clone());
    accounts[2].key = MINT_B;
    assert_eq!(check_take(&PROGRAM, &accounts).unwrap_err(), EscrowError::MintMismatch);
    let mut accounts = take_accounts(escrow.clone());
    accounts[3].key = MINT_A;
    assert_eq!(check_take(&PROGRAM, &accounts).unwrap_err(), EscrowError::MintMismatch);
    let mut accounts = take_accounts(escrow.clone());
    accounts[0].is_signer = false;
    assert_eq!(check_take(&PROGRAM, &accounts).unwrap_err(), EscrowError::MissingRequiredSignature);
    let mut accounts = take_accounts(escrow.clone());
    accounts[8].owner = SYSTEM;
    assert_eq!(check_take(&PROGRAM, &accounts).unwrap_err(), EscrowError::IllegalOwner);
    let mut accounts = take_accounts(escrow.clone());
    accounts[8].data.pop();
    assert_eq!(check_take(&PROGRAM, &accounts).unwrap_err(), EscrowError::InvalidAccountData);
    let accounts = take_accounts(escrow.clone());
    assert_eq!(check_take(&PROGRAM, &accounts[..10]).unwrap_err(), EscrowError::NotEnoughAccountKeys);
    let rec = check_take(&PROGRAM, &accounts).unwrap();
    assert_eq!(take_with_address(&accounts, &rec, None).unwrap_err(), EscrowError::InvalidSeeds);
    assert_eq!(
        take_with_address(&accounts, &rec, Some((VAULT, 254))).unwrap_err(),
        EscrowError::AddressMismatch
    );
}

#[test]
fn take_fails_without_a_derived_address() {
    let accounts = take_accounts(escrow_after_make());
    let err = take(&PROGRAM, &accounts).unwrap_err();
    assert!(err == EscrowError::InvalidSeeds || err == EscrowError::AddressMismatch);
    let mut accounts = take_accounts(escrow_after_make());
    accounts[2].key = MINT_B;
    assert_eq!(take(&PROGRAM, &accounts).unwrap_err(), EscrowError::MintMismatch);
}

#[test]
fn refund_returns_deposit() {
    let accounts = refund_accounts(escrow_after_make());
    let rec = check_refund(&PROGRAM, &accounts).unwrap();
    let plan = refund_with_address(&accounts, &rec, Some((ESCROW, 254))).unwrap();
    assert_eq!(plan.len(), 3);
    assert_eq!(delta(&plan, MAKER_ATA_A), 1000);
    assert_eq!(delta(&plan, VAULT), -1000);
    assert!(!mint_moved(&plan, MINT_B));
    assert!(closes_to_maker(&plan));
}

#[test]
fn refund_rejections() {
    let escrow = escrow_after_make();
    let mut accounts = refund_accounts(escrow.clone());
    accounts[1].key = MINT_B;
    assert_eq!(check_refund(&PROGRAM, &accounts).unwrap_err(), EscrowError::MintMismatch);
    let mut accounts = refund_accounts(escrow.clone());
    accounts[0].key = TAKER;
    assert_eq!(check_refund(&PROGRAM, &accounts).unwrap_err(), EscrowError::MakerMismatch);
    let mut accounts = refund_accounts(escrow.clone());
    accounts[0].is_signer = false;
    assert_eq!(check_refund(&PROGRAM, &accounts).unwrap_err(), EscrowError::MissingRequiredSignature);
    let accounts = refund_accounts(escrow.clone());
    assert_eq!(check_refund(&PROGRAM, &accounts[..6]).unwrap_err(), EscrowError::NotEnoughAccountKeys);
    let rec = check_refund(&PROGRAM, &accounts).unwrap();
    assert_eq!(refund_with_address(&accounts, &rec, None).unwrap_err(), EscrowError::InvalidSeeds);
    let err = refund(&PROGRAM, &accounts).unwrap_err();
    assert!(err == EscrowError::InvalidSeeds || err == EscrowError::AddressMismatch);
}

#[test]
fn closed_escrow_cannot_be_taken_or_refunded() {
    let closed = acct(ESCROW, false);
    assert_eq!(check_take(&PROGRAM, &take_accounts(closed.clone())).unwrap_err(), EscrowError::InvalidAccountData);
    assert_eq!(check_refund(&PROGRAM, &refund_accounts(closed)).unwrap_err(), EscrowError::InvalidAccountData);
    let (maker, escrow) = reclaim_lamports(5_000, 1_500_000).unwrap();
    assert_eq!(maker, 1_505_000);
    assert_eq!(escrow, 0);
}

#[test]
fn reclaim_overflow_rejected() {
    assert_eq!(reclaim_lamports(u64::MAX, 1).unwrap_err(), EscrowError::ArithmeticOverflow);
    assert_eq!(reclaim_lamports(u64::MAX, 0).unwrap(), (u64::MAX, 0));
}

#[test]
fn keys_compare_bytewise() {
    assert!(same_key(&MAKER, &MAKER));
    let mut k = MAKER;
    k[31] = 0;
    assert!(!same_key(&MAKER, &k));
}

#[test]
fn escrow_seeds_in_order() {
    assert_eq!(escrow_tag_bytes(), b"escrow".to_vec());
    let seeds = escrow_seed_bytes(&MAKER, &7u64.to_le_bytes(), 254);
    assert_eq!(seeds, vec![b"escrow".to_vec(), MAKER.to_vec(), 7u64.to_le_bytes().to_vec(), vec![254u8]]);
    let signer = EscrowSigner { maker: MAKER, seed: 7u64.to_le_bytes(), bump: 254 };
    assert_eq!(signer.seeds(), seeds);
}

#[test]
fn make_derivation_seeds_follow_checks() {
    let args = make_args(7, 1000, 500, 254);
    let accounts = make_accounts();
    let seeds = make_derivation_seeds(&accounts, &args).unwrap();
    assert_eq!(seeds, escrow_seed_bytes(&MAKER, &7u64.to_le_bytes(), 254));
    assert!(make_derivation_seeds(&accounts[..7], &args).is_none());
    let mut unsigned = make_accounts();
    unsigned[0].is_signer = false;
    assert!(make_derivation_seeds(&unsigned, &args).is_none());
}
