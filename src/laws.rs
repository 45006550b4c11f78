use vstd::prelude::*;
use crate::bytes::{le_value, lemma_le_value_bound, pow256};
use crate::processor::{
    closing_actions, key_of, make_plan, refund_failure, refund_plan, take_failure,
    take_plan, AccountState, Action, EscrowSigner,
};
use crate::instruction::MakeArgs;
use crate::state::{Escrow, Pubkey};

verus! {

/// Net change of the token balance of account `acct` over a list of effects.
pub open spec fn token_delta(actions: Seq<Action>, acct: Seq<u8>) -> int
    decreases actions.len(),
{
    if actions.len() == 0 {
        0
    } else {
        let rest = token_delta(actions.drop_first(), acct);
        match actions[0] {
            Action::TransferChecked { from, to, amount, .. } => {
                (if to@ == acct {
                    amount as int
                } else {
                    0
                }) - (if from@ == acct {
                    amount as int
                } else {
                    0
                }) + rest
            },
            _ => rest,
        }
    }
}

/// Every token transfer in the list moves units of `mint`.
pub open spec fn transfers_only_mint(actions: Seq<Action>, mint: Seq<u8>) -> bool {
    forall|i: int|
        0 <= i < actions.len() ==> (#[trigger] actions[i] matches Action::TransferChecked { mint: m, .. } ==> m@
            == mint)
}

proof fn lemma_u64_of_le(s: Seq<u8>)
    requires
        s.len() == 8,
    ensures
        (le_value(s) as u64) as int == le_value(s),
{
    lemma_le_value_bound(s);
    assert(pow256(8) == 0x1_0000_0000_0000_0000) by {
        reveal_with_fuel(pow256, 9);
    }
}

/// A valid Make stores exactly its arguments, at the escrow account it was
/// given, and moves exactly `amount` of mint_a from the maker into the vault.
pub proof fn lemma_make_deposits_amount(program_id: Pubkey, accts: Seq<AccountState>, args: MakeArgs, rent: u64)
    requires
        accts.len() == 8,
        key_of(accts, 3) != key_of(accts, 4),
    ensures
        make_plan(program_id, accts, args, rent)[1] matches Action::WriteEscrow { account, record }
            && account@ == key_of(accts, 5) && record.maker@ == key_of(accts, 0) && record.mint_a@
            == key_of(accts, 1) && record.mint_b@ == key_of(accts, 2) && record.amount@
            == args.amount@ && record.receive@ == args.receive@ && record.seed@ == args.seed@
            && record.bump == args.bump,
        token_delta(make_plan(program_id, accts, args, rent), key_of(accts, 4)) == le_value(args.amount@),
        token_delta(make_plan(program_id, accts, args, rent), key_of(accts, 3)) == -le_value(args.amount@),
{
    let p = make_plan(program_id, accts, args, rent);
    lemma_u64_of_le(args.amount@);
    assert(p.drop_first().drop_first().drop_first() =~= Seq::<Action>::empty());
    reveal_with_fuel(token_delta, 4);
}

/// Take is a complete swap: the maker gains exactly `receive` of mint_b, the
/// taker gains exactly `amount` of mint_a, the vault and taker's mint_b
/// account pay them, and the vault and escrow are then closed to the maker.
pub proof fn lemma_take_is_complete_swap(accts: Seq<AccountState>, rec: Escrow, bump: u8)
    requires
        accts.len() == 11,
        key_of(accts, 4) != key_of(accts, 5),
        key_of(accts, 4) != key_of(accts, 6),
        key_of(accts, 4) != key_of(accts, 7),
        key_of(accts, 5) != key_of(accts, 6),
        key_of(accts, 5) != key_of(accts, 7),
        key_of(accts, 6) != key_of(accts, 7),
    ensures
        token_delta(take_plan(accts, rec, bump), key_of(accts, 4)) == le_value(rec.receive@),
        token_delta(take_plan(accts, rec, bump), key_of(accts, 6)) == -le_value(rec.receive@),
        token_delta(take_plan(accts, rec, bump), key_of(accts, 5)) == le_value(rec.amount@),
        token_delta(take_plan(accts, rec, bump), key_of(accts, 7)) == -le_value(rec.amount@),
        take_plan(accts, rec, bump).subrange(2, 4) == closing_actions(
            accts[7].key,
            accts[1].key,
            accts[8].key,
            EscrowSigner { maker: accts[1].key, seed: rec.seed, bump },
        ),
{
    let p = take_plan(accts, rec, bump);
    lemma_u64_of_le(rec.amount@);
    lemma_u64_of_le(rec.receive@);
    reveal_with_fuel(token_delta, 5);
    assert(p.drop_first().drop_first().drop_first().drop_first() =~= Seq::<Action>::empty());
    assert(p.subrange(2, 4) =~= closing_actions(
        accts[7].key,
        accts[1].key,
        accts[8].key,
        EscrowSigner { maker: accts[1].key, seed: rec.seed, bump },
    ));
}

/// Refund hands exactly `amount` of mint_a back from the vault to the maker,
/// moves no other asset, and closes the vault and escrow by the same effects
/// as Take.
pub proof fn lemma_refund_returns_deposit(accts: Seq<AccountState>, rec: Escrow, bump: u8)
    requires
        accts.len() == 7,
        key_of(accts, 2) != key_of(accts, 3),
    ensures
        token_delta(refund_plan(accts, rec, bump), key_of(accts, 2)) == le_value(rec.amount@),
        token_delta(refund_plan(accts, rec, bump), key_of(accts, 3)) == -le_value(rec.amount@),
        transfers_only_mint(refund_plan(accts, rec, bump), key_of(accts, 1)),
        refund_plan(accts, rec, bump).subrange(1, 3) == closing_actions(
            accts[3].key,
            accts[0].key,
            accts[4].key,
            EscrowSigner { maker: accts[0].key, seed: rec.seed, bump },
        ),
{
    let p = refund_plan(accts, rec, bump);
    lemma_u64_of_le(rec.amount@);
    reveal_with_fuel(token_delta, 4);
    assert(p.drop_first().drop_first().drop_first() =~= Seq::<Action>::empty());
    assert(p.subrange(1, 3) =~= closing_actions(
        accts[3].key,
        accts[0].key,
        accts[4].key,
        EscrowSigner { maker: accts[0].key, seed: rec.seed, bump },
    ));
}

/// Take and Refund are terminal: once the escrow account is closed (it
/// holds no record, or this program no longer owns it), both reject it.
pub proof fn lemma_closed_escrow_rejected(
    program_id: Pubkey,
    take_accts: Seq<AccountState>,
    refund_accts: Seq<AccountState>,
)
    requires
        take_accts.len() == 11 ==> take_accts[8].data@.len() != Escrow::LEN || take_accts[8].owner@
            != program_id@,
        refund_accts.len() == 7 ==> refund_accts[4].data@.len() != Escrow::LEN
            || refund_accts[4].owner@ != program_id@,
    ensures
        take_failure(program_id, take_accts) is Some,
        refund_failure(program_id, refund_accts) is Some,
{
}

} // verus!
