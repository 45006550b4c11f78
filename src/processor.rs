use vstd::prelude::*;
use crate::address::{created_address, escrow_seed_bytes, escrow_seeds, escrow_tag_bytes, find_address3};
use crate::bytes::{le_value, u64_from_le};
use crate::error::EscrowError;
use crate::instruction::MakeArgs;
use crate::state::{escrow_record_of, Escrow, Pubkey};

verus! {

/// What an operation reads of one supplied account.
#[derive(Clone, Debug)]
pub struct AccountState {
    pub key: Pubkey,
    pub owner: Pubkey,
    pub is_signer: bool,
    pub data: Vec<u8>,
}

/// The capability to sign for the escrow address derived from
/// `["escrow", maker, seed, [bump]]`, valid for the current call only.
#[derive(Clone, Copy, Debug)]
pub struct EscrowSigner {
    pub maker: Pubkey,
    pub seed: [u8; 8],
    pub bump: u8,
}

impl EscrowSigner {
    /// The seeds to sign with: `["escrow", maker, seed, [bump]]`.
    pub fn seeds(&self) -> (r: Vec<Vec<u8>>)
        ensures
            r@.len() == 4,
            forall|i: int|
                0 <= i < 4 ==> (#[trigger] r@[i])@ == escrow_seeds(self.maker@, self.seed@, self.bump)[i],
    {
        escrow_seed_bytes(&self.maker, &self.seed, self.bump)
    }
}

/// One effect that an accepted operation asks the host to perform, in order.
#[derive(Clone, Copy, Debug)]
pub enum Action {
    /// Allocate `to` with `space` bytes, owned by `owner`, funded by `from`
    /// with `lamports`, signed for `to` by the escrow capability.
    CreateAccount { from: Pubkey, to: Pubkey, space: u64, owner: Pubkey, lamports: u64, signer: EscrowSigner },
    /// Store the encoded record in `account`.
    WriteEscrow { account: Pubkey, record: Escrow },
    /// Move `amount` units of `mint` from `from` to `to`, checked against the
    /// mint's decimals; signed by `authority` itself, or by the escrow
    /// capability where one is given.
    TransferChecked {
        from: Pubkey,
        to: Pubkey,
        authority: Pubkey,
        mint: Pubkey,
        amount: u64,
        escrow_signer: Option<EscrowSigner>,
    },
    /// Close the token account `account`, its balance going to `destination`.
    CloseAccount { account: Pubkey, destination: Pubkey, authority: Pubkey, signer: EscrowSigner },
    /// Move the whole balance of `source` to `destination` (see `reclaim_lamports`).
    ReclaimLamports { source: Pubkey, destination: Pubkey },
}

/// The keys of the supplied accounts.
pub open spec fn key_of(accts: Seq<AccountState>, i: int) -> Seq<u8> {
    accts[i].key@
}

/// The first check that Make fails, given the outcome of the derivation.
pub open spec fn make_failure(accts: Seq<AccountState>, derived: Option<Pubkey>) -> Option<EscrowError> {
    if accts.len() != 8 {
        Some(EscrowError::NotEnoughAccountKeys)
    } else if !accts[0].is_signer {
        Some(EscrowError::MissingRequiredSignature)
    } else {
        match derived {
            None => Some(EscrowError::InvalidSeeds),
            Some(a) => if a@ != key_of(accts, 5) {
                Some(EscrowError::AddressMismatch)
            } else {
                None
            },
        }
    }
}

/// The effects of an accepted Make, over
/// `[maker, mint_a, mint_b, maker_ata_a, vault, escrow, system, token]`.
pub open spec fn make_plan(program_id: Pubkey, accts: Seq<AccountState>, args: MakeArgs, rent: u64) -> Seq<Action> {
    let signer = EscrowSigner { maker: accts[0].key, seed: args.seed, bump: args.bump };
    seq![
        Action::CreateAccount {
            from: accts[0].key,
            to: accts[5].key,
            space: Escrow::LEN as u64,
            owner: program_id,
            lamports: rent,
            signer,
        },
        Action::WriteEscrow {
            account: accts[5].key,
            record: Escrow {
                maker: accts[0].key,
                mint_a: accts[1].key,
                mint_b: accts[2].key,
                amount: args.amount,
                receive: args.receive,
                seed: args.seed,
                bump: args.bump,
            },
        },
        Action::TransferChecked {
            from: accts[3].key,
            to: accts[4].key,
            authority: accts[0].key,
            mint: accts[1].key,
            amount: le_value(args.amount@) as u64,
            escrow_signer: None,
        },
    ]
}

/// Compares two keys byte by byte.
pub fn same_key(a: &Pubkey, b: &Pubkey) -> (r: bool)
    ensures
        r == (a@ == b@),
{
    let mut i: usize = 0;
    while i < 32
        invariant
            i <= 32,
            a@.len() == 32,
            b@.len() == 32,
            forall|k: int| 0 <= k < i ==> a@[k] == b@[k],
        decreases 32 - i,
    {
        if a[i] != b[i] {
            return false;
        }
        i = i + 1;
    }
    assert(a@ =~= b@);
    true
}

/// Validates a Make against the derived escrow address `derived` (the
/// outcome of deriving, under `program_id`, the seeds that
/// `make_derivation_seeds` gives for these accounts and arguments) and returns its
/// effects: create the escrow account funded with `rent`, write the record,
/// and move `amount` of mint_a from the maker into the vault.
pub fn make_with_address(
    program_id: &Pubkey,
    accounts: &[AccountState],
    args: &MakeArgs,
    derived: Option<Pubkey>,
    rent: u64,
) -> (r: Result<Vec<Action>, EscrowError>)
    ensures
        match make_failure(accounts@, derived) {
            Some(e) => r == Err::<Vec<Action>, EscrowError>(e),
            None => r matches Ok(p) && p@ == make_plan(*program_id, accounts@, *args, rent),
        },
{
    if accounts.len() != 8 {
        return Err(EscrowError::NotEnoughAccountKeys);
    }
    if !accounts[0].is_signer {
        return Err(EscrowError::MissingRequiredSignature);
    }
    let address = match derived {
        None => {
            return Err(EscrowError::InvalidSeeds);
        },
        Some(a) => a,
    };
    if !same_key(&address, &accounts[5].key) {
        return Err(EscrowError::AddressMismatch);
    }
    let maker = accounts[0].key;
    let escrow = accounts[5].key;
    let signer = EscrowSigner { maker, seed: args.seed, bump: args.bump };
    let amount = args.amount();
    let mut plan: Vec<Action> = Vec::new();
    plan.push(
        Action::CreateAccount {
            from: maker,
            to: escrow,
            space: Escrow::LEN as u64,
            owner: *program_id,
            lamports: rent,
            signer,
        },
    );
    plan.push(
        Action::WriteEscrow {
            account: escrow,
            record: Escrow {
                maker,
                mint_a: accounts[1].key,
                mint_b: accounts[2].key,
                amount: args.amount,
                receive: args.receive,
                seed: args.seed,
                bump: args.bump,
            },
        },
    );
    plan.push(
        Action::TransferChecked {
            from: accounts[3].key,
            to: accounts[4].key,
            authority: maker,
            mint: accounts[1].key,
            amount,
            escrow_signer: None,
        },
    );
    assert(plan@ =~= make_plan(*program_id, accounts@, *args, rent));
    Ok(plan)
}

/// The seeds that Make hands to the derivation of the escrow address,
/// `["escrow", maker, seed, [bump]]`; `None` where Make fails before deriving
/// (wrong account count, or the maker did not sign).
pub fn make_derivation_seeds(accounts: &[AccountState], args: &MakeArgs) -> (r: Option<Vec<Vec<u8>>>)
    ensures
        r is Some <==> accounts@.len() == 8 && accounts@[0].is_signer,
        r matches Some(v) ==> v@.len() == 4 && forall|i: int|
            0 <= i < 4 ==> (#[trigger] v@[i])@ == escrow_seeds(key_of(accounts@, 0), args.seed@, args.bump)[i],
{
    if accounts.len() != 8 || !accounts[0].is_signer {
        return None;
    }
    Some(escrow_seed_bytes(&accounts[0].key, &args.seed, args.bump))
}

/// The first check that an escrow account and its authorising account fail
/// when the record is loaded: size, signature, ownership.
pub open spec fn load_failure(program_id: Pubkey, escrow: AccountState, authority: AccountState) -> Option<EscrowError> {
    if escrow.data@.len() != Escrow::LEN {
        Some(EscrowError::InvalidAccountData)
    } else if !authority.is_signer {
        Some(EscrowError::MissingRequiredSignature)
    } else if escrow.owner@ != program_id@ {
        Some(EscrowError::IllegalOwner)
    } else {
        None
    }
}

/// Decodes the escrow record and checks that `authority` signed and that
/// this program owns the escrow account.
fn load_escrow(program_id: &Pubkey, escrow: &AccountState, authority: &AccountState) -> (r: Result<
    Escrow,
    EscrowError,
>)
    ensures
        match load_failure(*program_id, *escrow, *authority) {
            Some(e) => r == Err::<Escrow, EscrowError>(e),
            None => r matches Ok(rec) && rec@ == escrow_record_of(escrow.data@),
        },
{
    let rec = match Escrow::from_bytes(escrow.data.as_slice()) {
        Ok(rec) => rec,
        Err(e) => {
            return Err(e);
        },
    };
    if !authority.is_signer {
        return Err(EscrowError::MissingRequiredSignature);
    }
    if !same_key(&escrow.owner, program_id) {
        return Err(EscrowError::IllegalOwner);
    }
    Ok(rec)
}

/// The effects shared by Take and Refund once the tokens have moved: close
/// the vault and drain the escrow account, both to the maker.
pub open spec fn closing_actions(vault: Pubkey, maker: Pubkey, escrow: Pubkey, signer: EscrowSigner) -> Seq<Action> {
    seq![
        Action::CloseAccount { account: vault, destination: maker, authority: escrow, signer },
        Action::ReclaimLamports { source: escrow, destination: maker },
    ]
}

/// The first check that Take fails, over `[taker, maker, mint_a, mint_b,
/// maker_ata_b, taker_ata_a, taker_ata_b, vault, escrow, system, token]`.
pub open spec fn take_failure(program_id: Pubkey, accts: Seq<AccountState>) -> Option<EscrowError> {
    if accts.len() != 11 {
        Some(EscrowError::NotEnoughAccountKeys)
    } else if load_failure(program_id, accts[8], accts[0]) is Some {
        load_failure(program_id, accts[8], accts[0])
    } else if escrow_record_of(accts[8].data@).maker != key_of(accts, 1) {
        Some(EscrowError::MakerMismatch)
    } else if escrow_record_of(accts[8].data@).mint_a != key_of(accts, 2)
        || escrow_record_of(accts[8].data@).mint_b != key_of(accts, 3) {
        Some(EscrowError::MintMismatch)
    } else {
        None
    }
}

/// The effects of an accepted Take of record `rec`, the escrow capability
/// carrying `bump`.
pub open spec fn take_plan(accts: Seq<AccountState>, rec: Escrow, bump: u8) -> Seq<Action> {
    let signer = EscrowSigner { maker: accts[1].key, seed: rec.seed, bump };
    seq![
        Action::TransferChecked {
            from: accts[6].key,
            to: accts[4].key,
            authority: accts[0].key,
            mint: accts[3].key,
            amount: le_value(rec.receive@) as u64,
            escrow_signer: None,
        },
        Action::TransferChecked {
            from: accts[7].key,
            to: accts[5].key,
            authority: accts[8].key,
            mint: accts[2].key,
            amount: le_value(rec.amount@) as u64,
            escrow_signer: Some(signer),
        },
    ] + closing_actions(accts[7].key, accts[1].key, accts[8].key, signer)
}

/// Checks the Take accounts against the escrow record and returns the record.
pub fn check_take(program_id: &Pubkey, accounts: &[AccountState]) -> (r: Result<Escrow, EscrowError>)
    ensures
        match take_failure(*program_id, accounts@) {
            Some(e) => r == Err::<Escrow, EscrowError>(e),
            None => r matches Ok(rec) && rec@ == escrow_record_of(accounts@[8].data@),
        },
{
    if accounts.len() != 11 {
        return Err(EscrowError::NotEnoughAccountKeys);
    }
    let rec = load_escrow(program_id, &accounts[8], &accounts[0])?;
    if !same_key(&rec.maker, &accounts[1].key) {
        return Err(EscrowError::MakerMismatch);
    }
    if !same_key(&rec.mint_a, &accounts[2].key) || !same_key(&rec.mint_b, &accounts[3].key) {
        return Err(EscrowError::MintMismatch);
    }
    Ok(rec)
}

/// The outcome of matching a found derived address against the escrow account.
pub open spec fn address_failure(found: Option<(Pubkey, u8)>, escrow: Pubkey) -> Option<EscrowError> {
    match found {
        None => Some(EscrowError::InvalidSeeds),
        Some(p) => if p.0@ != escrow@ {
            Some(EscrowError::AddressMismatch)
        } else {
            None
        },
    }
}

/// Completes a checked Take of `rec`, given the outcome `found` of the
/// search for the canonical bump of `["escrow", maker, seed]`: the taker pays
/// `receive` of mint_b to the maker, the vault pays `amount` of mint_a to the
/// taker, then the vault and the escrow are closed to the maker.
pub fn take_with_address(accounts: &[AccountState], rec: &Escrow, found: Option<(Pubkey, u8)>) -> (r:
    Result<Vec<Action>, EscrowError>)
    ensures
        accounts@.len() != 11 ==> r == Err::<Vec<Action>, EscrowError>(
            EscrowError::NotEnoughAccountKeys,
        ),
        accounts@.len() == 11 ==> match address_failure(found, accounts@[8].key) {
            Some(e) => r == Err::<Vec<Action>, EscrowError>(e),
            None => r matches Ok(p) && p@ == take_plan(accounts@, *rec, found->Some_0.1),
        },
{
    if accounts.len() != 11 {
        return Err(EscrowError::NotEnoughAccountKeys);
    }
    let (address, bump) = match found {
        None => {
            return Err(EscrowError::InvalidSeeds);
        },
        Some(p) => p,
    };
    if !same_key(&address, &accounts[8].key) {
        return Err(EscrowError::AddressMismatch);
    }
    let signer = EscrowSigner { maker: accounts[1].key, seed: rec.seed, bump };
    let receive = u64_from_le(&rec.receive);
    let amount = u64_from_le(&rec.amount);
    let mut plan: Vec<Action> = Vec::new();
    plan.push(
        Action::TransferChecked {
            from: accounts[6].key,
            to: accounts[4].key,
            authority: accounts[0].key,
            mint: accounts[3].key,
            amount: receive,
            escrow_signer: None,
        },
    );
    plan.push(
        Action::TransferChecked {
            from: accounts[7].key,
            to: accounts[5].key,
            authority: accounts[8].key,
            mint: accounts[2].key,
            amount,
            escrow_signer: Some(signer),
        },
    );
    push_closing(&mut plan, accounts[7].key, accounts[1].key, accounts[8].key, signer);
    assert(plan@ =~= take_plan(accounts@, *rec, bump));
    Ok(plan)
}

fn push_closing(plan: &mut Vec<Action>, vault: Pubkey, maker: Pubkey, escrow: Pubkey, signer: EscrowSigner)
    ensures
        final(plan)@ == old(plan)@ + closing_actions(vault, maker, escrow, signer),
{
    plan.push(Action::CloseAccount { account: vault, destination: maker, authority: escrow, signer });
    plan.push(Action::ReclaimLamports { source: escrow, destination: maker });
    assert(plan@ =~= old(plan)@ + closing_actions(vault, maker, escrow, signer));
}

/// Take: validates the accounts against the stored record, re-derives the
/// escrow address from `["escrow", maker, seed]` with its canonical bump,
/// and returns the swap's effects.
pub fn take(program_id: &Pubkey, accounts: &[AccountState]) -> (r: Result<Vec<Action>, EscrowError>)
    ensures
        take_failure(*program_id, accounts@) matches Some(e) ==> r == Err::<Vec<Action>, EscrowError>(e),
        r matches Ok(p) ==> take_failure(*program_id, accounts@) is None && exists|rec: Escrow, bump: u8|
            rec@ == escrow_record_of(accounts@[8].data@) && created_address(
                escrow_seeds(key_of(accounts@, 1), rec.seed@, bump),
                program_id@,
            ) == Some(key_of(accounts@, 8)) && p@ == take_plan(accounts@, rec, bump),
        r matches Ok(_) ==> escrow_record_of(accounts@[8].data@).maker == key_of(accounts@, 1)
            && escrow_record_of(accounts@[8].data@).mint_a == key_of(accounts@, 2)
            && escrow_record_of(accounts@[8].data@).mint_b == key_of(accounts@, 3),
        take_failure(*program_id, accounts@) is None && r is Err ==> r == Err::<Vec<Action>, EscrowError>(
            EscrowError::InvalidSeeds,
        ) || r == Err::<Vec<Action>, EscrowError>(EscrowError::AddressMismatch),
{
    let rec = check_take(program_id, accounts)?;
    let tag = escrow_tag_bytes();
    let found = find_address3(
        tag.as_slice(),
        vstd::array::array_as_slice(&accounts[1].key),
        vstd::array::array_as_slice(&rec.seed),
        program_id,
    );
    let r = take_with_address(accounts, &rec, found);
    if let Ok(p) = &r {
        let bump = found.unwrap().1;
        assert(seq![tag@, accounts@[0].key@, rec.seed@].push(seq![bump]) =~= escrow_seeds(
            key_of(accounts@, 0),
            rec.seed@,
            bump,
        ));
        assert(seq![tag@, accounts@[1].key@, rec.seed@].push(seq![bump]) =~= escrow_seeds(
            key_of(accounts@, 1),
            rec.seed@,
            bump,
        ));
        assert(rec@ == escrow_record_of(accounts@[8].data@) && created_address(
            escrow_seeds(key_of(accounts@, 1), rec.seed@, bump),
            program_id@,
        ) == Some(key_of(accounts@, 8)) && p@ == take_plan(accounts@, rec, bump));
    }
    r
}

/// The first check that Refund fails, over `[maker, mint_a, maker_ata_a,
/// vault, escrow, system, token]`.
pub open spec fn refund_failure(program_id: Pubkey, accts: Seq<AccountState>) -> Option<EscrowError> {
    if accts.len() != 7 {
        Some(EscrowError::NotEnoughAccountKeys)
    } else if load_failure(program_id, accts[4], accts[0]) is Some {
        load_failure(program_id, accts[4], accts[0])
    } else if escrow_record_of(accts[4].data@).maker != key_of(accts, 0) {
        Some(EscrowError::MakerMismatch)
    } else if escrow_record_of(accts[4].data@).mint_a != key_of(accts, 1) {
        Some(EscrowError::MintMismatch)
    } else {
        None
    }
}

/// The effects of an accepted Refund of record `rec`, the escrow capability
/// carrying `bump`.
pub open spec fn refund_plan(accts: Seq<AccountState>, rec: Escrow, bump: u8) -> Seq<Action> {
    let signer = EscrowSigner { maker: accts[0].key, seed: rec.seed, bump };
    seq![
        Action::TransferChecked {
            from: accts[3].key,
            to: accts[2].key,
            authority: accts[4].key,
            mint: accts[1].key,
            amount: le_value(rec.amount@) as u64,
            escrow_signer: Some(signer),
        },
    ] + closing_actions(accts[3].key, accts[0].key, accts[4].key, signer)
}

/// Checks the Refund accounts against the escrow record and returns the record.
pub fn check_refund(program_id: &Pubkey, accounts: &[AccountState]) -> (r: Result<Escrow, EscrowError>)
    ensures
        match refund_failure(*program_id, accounts@) {
            Some(e) => r == Err::<Escrow, EscrowError>(e),
            None => r matches Ok(rec) && rec@ == escrow_record_of(accounts@[4].data@),
        },
{
    if accounts.len() != 7 {
        return Err(EscrowError::NotEnoughAccountKeys);
    }
    let rec = load_escrow(program_id, &accounts[4], &accounts[0])?;
    if !same_key(&rec.maker, &accounts[0].key) {
        return Err(EscrowError::MakerMismatch);
    }
    if !same_key(&rec.mint_a, &accounts[1].key) {
        return Err(EscrowError::MintMismatch);
    }
    Ok(rec)
}

/// Completes a checked Refund of `rec`, given the outcome `found` of the
/// search for the canonical bump of `["escrow", maker, seed]`: the vault
/// returns `amount` of mint_a to the maker, then the vault and the escrow are
/// closed to the maker.
pub fn refund_with_address(accounts: &[AccountState], rec: &Escrow, found: Option<(Pubkey, u8)>) -> (r:
    Result<Vec<Action>, EscrowError>)
    ensures
        accounts@.len() != 7 ==> r == Err::<Vec<Action>, EscrowError>(
            EscrowError::NotEnoughAccountKeys,
        ),
        accounts@.len() == 7 ==> match address_failure(found, accounts@[4].key) {
            Some(e) => r == Err::<Vec<Action>, EscrowError>(e),
            None => r matches Ok(p) && p@ == refund_plan(accounts@, *rec, found->Some_0.1),
        },
{
    if accounts.len() != 7 {
        return Err(EscrowError::NotEnoughAccountKeys);
    }
    let (address, bump) = match found {
        None => {
            return Err(EscrowError::InvalidSeeds);
        },
        Some(p) => p,
    };
    if !same_key(&address, &accounts[4].key) {
        return Err(EscrowError::AddressMismatch);
    }
    let signer = EscrowSigner { maker: accounts[0].key, seed: rec.seed, bump };
    let amount = u64_from_le(&rec.amount);
    let mut plan: Vec<Action> = Vec::new();
    plan.push(
        Action::TransferChecked {
            from: accounts[3].key,
            to: accounts[2].key,
            authority: accounts[4].key,
            mint: accounts[1].key,
            amount,
            escrow_signer: Some(signer),
        },
    );
    push_closing(&mut plan, accounts[3].key, accounts[0].key, accounts[4].key, signer);
    assert(plan@ =~= refund_plan(accounts@, *rec, bump));
    Ok(plan)
}

/// Refund: validates the accounts against the stored record, re-derives the
/// escrow address from `["escrow", maker, seed]` with its canonical bump,
/// and returns the cancellation's effects.
pub fn refund(program_id: &Pubkey, accounts: &[AccountState]) -> (r: Result<Vec<Action>, EscrowError>)
    ensures
        refund_failure(*program_id, accounts@) matches Some(e) ==> r == Err::<Vec<Action>, EscrowError>(e),
        r matches Ok(p) ==> refund_failure(*program_id, accounts@) is None && exists|rec: Escrow, bump: u8|
            rec@ == escrow_record_of(accounts@[4].data@) && created_address(
                escrow_seeds(key_of(accounts@, 0), rec.seed@, bump),
                program_id@,
            ) == Some(key_of(accounts@, 4)) && p@ == refund_plan(accounts@, rec, bump),
        refund_failure(*program_id, accounts@) is None && r is Err ==> r == Err::<Vec<Action>, EscrowError>(
            EscrowError::InvalidSeeds,
        ) || r == Err::<Vec<Action>, EscrowError>(EscrowError::AddressMismatch),
{
    let rec = check_refund(program_id, accounts)?;
    let tag = escrow_tag_bytes();
    let found = find_address3(
        tag.as_slice(),
        vstd::array::array_as_slice(&accounts[0].key),
        vstd::array::array_as_slice(&rec.seed),
        program_id,
    );
    let r = refund_with_address(accounts, &rec, found);
    if let Ok(p) = &r {
        let bump = found.unwrap().1;
        assert(seq![tag@, accounts@[0].key@, rec.seed@].push(seq![bump]) =~= escrow_seeds(
            key_of(accounts@, 0),
            rec.seed@,
            bump,
        ));
        assert(seq![tag@, accounts@[1].key@, rec.seed@].push(seq![bump]) =~= escrow_seeds(
            key_of(accounts@, 1),
            rec.seed@,
            bump,
        ));
        assert(rec@ == escrow_record_of(accounts@[4].data@) && created_address(
            escrow_seeds(key_of(accounts@, 0), rec.seed@, bump),
            program_id@,
        ) == Some(key_of(accounts@, 4)) && p@ == refund_plan(accounts@, rec, bump));
    }
    r
}

/// Moves the whole balance of a closing account onto `destination`:
/// returns the new balances of destination and source, or
/// `ArithmeticOverflow` where the sum does not fit.
pub fn reclaim_lamports(destination: u64, source: u64) -> (r: Result<(u64, u64), EscrowError>)
    ensures
        destination + source <= u64::MAX ==> r == Ok::<(u64, u64), EscrowError>(
            ((destination + source) as u64, 0u64),
        ),
        destination + source > u64::MAX ==> r == Err::<(u64, u64), EscrowError>(
            EscrowError::ArithmeticOverflow,
        ),
{
    match destination.checked_add(source) {
        Some(total) => Ok((total, 0)),
        None => Err(EscrowError::ArithmeticOverflow),
    }
}

} // verus!
