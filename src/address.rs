use vstd::prelude::*;
use crate::bytes::push_array;
use crate::state::Pubkey;

verus! {

#[verifier::external_type_specification]
#[verifier::external_body]
pub struct ExProgramError(pinocchio::program_error::ProgramError);

/// The literal tag that opens the seeds of every escrow address.
pub open spec fn escrow_tag() -> Seq<u8> {
    seq![101u8, 115u8, 99u8, 114u8, 111u8, 119u8]
}

/// The seeds of an escrow address without its bump:
/// `["escrow", maker, seed]`.
pub open spec fn escrow_base_seeds(maker: Seq<u8>, seed: Seq<u8>) -> Seq<Seq<u8>> {
    seq![escrow_tag(), maker, seed]
}

/// The full seeds of an escrow address: `["escrow", maker, seed, [bump]]`.
pub open spec fn escrow_seeds(maker: Seq<u8>, seed: Seq<u8>, bump: u8) -> Seq<Seq<u8>> {
    escrow_base_seeds(maker, seed).push(seq![bump])
}

/// The address that the host derives from seeds under a program identity,
/// or `None` where the seeds give no valid derived address.
pub uninterp spec fn created_address(seeds: Seq<Seq<u8>>, program_id: Seq<u8>) -> Option<Seq<u8>>;

/// Relies on `pinocchio::pubkey::try_find_program_address` over the three
/// seeds `[s0, s1, s2]` in that order: where it finds a bump, the address it
/// returns is the one derived from those seeds followed by that bump. It may
/// find none.
#[verifier::external_body]
pub(crate) fn find_address3(s0: &[u8], s1: &[u8], s2: &[u8], program_id: &Pubkey) -> (r: Option<
    (Pubkey, u8),
>)
    ensures
        r matches Some(p) ==> created_address(seq![s0@, s1@, s2@].push(seq![p.1]), program_id@)
            == Some(p.0@),
{
    pinocchio::pubkey::try_find_program_address(&[s0, s1, s2], program_id)
}

/// The tag bytes, `"escrow"`.
pub fn escrow_tag_bytes() -> (r: Vec<u8>)
    ensures
        r@ == escrow_tag(),
{
    let mut v: Vec<u8> = Vec::new();
    v.push(101u8);
    v.push(115u8);
    v.push(99u8);
    v.push(114u8);
    v.push(111u8);
    v.push(119u8);
    assert(v@ =~= escrow_tag());
    v
}

/// The full seeds of an escrow address, `["escrow", maker, seed, [bump]]`,
/// as the derivation and the escrow's signature take them.
pub fn escrow_seed_bytes(maker: &Pubkey, seed: &[u8; 8], bump: u8) -> (r: Vec<Vec<u8>>)
    ensures
        r@.len() == 4,
        forall|i: int| 0 <= i < 4 ==> (#[trigger] r@[i])@ == escrow_seeds(maker@, seed@, bump)[i],
{
    let mut m: Vec<u8> = Vec::new();
    push_array(&mut m, maker);
    let mut s: Vec<u8> = Vec::new();
    push_array(&mut s, seed);
    let mut b: Vec<u8> = Vec::new();
    b.push(bump);
    let mut r: Vec<Vec<u8>> = Vec::new();
    r.push(escrow_tag_bytes());
    r.push(m);
    r.push(s);
    r.push(b);
    assert(m@ =~= maker@);
    assert(s@ =~= seed@);
    assert(b@ =~= seq![bump]);
    r
}

/// Derivation is deterministic: the same seed tuple under the same program
/// always gives the same outcome.
pub proof fn lemma_derivation_deterministic(
    maker1: Seq<u8>,
    seed1: Seq<u8>,
    bump1: u8,
    maker2: Seq<u8>,
    seed2: Seq<u8>,
    bump2: u8,
    program_id: Seq<u8>,
)
    requires
        maker1 == maker2,
        seed1 == seed2,
        bump1 == bump2,
    ensures
        created_address(escrow_seeds(maker1, seed1, bump1), program_id) == created_address(
            escrow_seeds(maker2, seed2, bump2),
            program_id,
        ),
{
}

/// The seed list is injective in `(maker, seed, bump)`: changing any of them
/// changes the seeds handed to the derivation.
pub proof fn lemma_escrow_seeds_injective(
    maker1: Seq<u8>,
    seed1: Seq<u8>,
    bump1: u8,
    maker2: Seq<u8>,
    seed2: Seq<u8>,
    bump2: u8,
)
    requires
        escrow_seeds(maker1, seed1, bump1) == escrow_seeds(maker2, seed2, bump2),
    ensures
        maker1 == maker2,
        seed1 == seed2,
        bump1 == bump2,
{
    let s1 = escrow_seeds(maker1, seed1, bump1);
    let s2 = escrow_seeds(maker2, seed2, bump2);
    assert(s1[1] == maker1);
    assert(s2[1] == maker2);
    assert(s1[2] == seed1);
    assert(s2[2] == seed2);
    assert(s1[3][0] == bump1);
    assert(s2[3][0] == bump2);
}

} // verus!
