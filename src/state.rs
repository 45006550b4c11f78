use vstd::prelude::*;
use crate::bytes::{read_array, push_array};
use crate::error::EscrowError;

verus! {

/// A 32-byte account address or asset identifier.
pub type Pubkey = [u8; 32];

/// The persisted terms of one outstanding swap.
#[derive(Clone, Copy, Debug)]
pub struct Escrow {
    pub maker: Pubkey,
    pub mint_a: Pubkey,
    pub mint_b: Pubkey,
    /// Quantity of `mint_a` deposited, little-endian.
    pub amount: [u8; 8],
    /// Quantity of `mint_b` asked for, little-endian.
    pub receive: [u8; 8],
    /// Salt of the address derivation, little-endian.
    pub seed: [u8; 8],
    pub bump: u8,
}

/// The fields of an escrow record as sequences of bytes.
pub struct EscrowView {
    pub maker: Seq<u8>,
    pub mint_a: Seq<u8>,
    pub mint_b: Seq<u8>,
    pub amount: Seq<u8>,
    pub receive: Seq<u8>,
    pub seed: Seq<u8>,
    pub bump: u8,
}

impl View for Escrow {
    type V = EscrowView;

    open spec fn view(&self) -> EscrowView {
        EscrowView {
            maker: self.maker@,
            mint_a: self.mint_a@,
            mint_b: self.mint_b@,
            amount: self.amount@,
            receive: self.receive@,
            seed: self.seed@,
            bump: self.bump,
        }
    }
}

/// The byte layout of an escrow record: the fields in order, no padding.
pub open spec fn escrow_layout(v: EscrowView) -> Seq<u8> {
    v.maker + v.mint_a + v.mint_b + v.amount + v.receive + v.seed + seq![v.bump]
}

/// Well-formed record fields: each has its fixed width.
pub open spec fn escrow_view_wf(v: EscrowView) -> bool {
    &&& v.maker.len() == 32
    &&& v.mint_a.len() == 32
    &&& v.mint_b.len() == 32
    &&& v.amount.len() == 8
    &&& v.receive.len() == 8
    &&& v.seed.len() == 8
}

/// The record fields held by an encoded escrow account.
pub open spec fn escrow_record_of(b: Seq<u8>) -> EscrowView {
    EscrowView {
        maker: b.subrange(0, 32),
        mint_a: b.subrange(32, 64),
        mint_b: b.subrange(64, 96),
        amount: b.subrange(96, 104),
        receive: b.subrange(104, 112),
        seed: b.subrange(112, 120),
        bump: b[120],
    }
}

impl Escrow {
    /// Size in bytes of an encoded record.
    pub const LEN: usize = 121;

    /// Decodes a record; the input must be exactly `LEN` bytes.
    pub fn from_bytes(b: &[u8]) -> (r: Result<Escrow, EscrowError>)
        ensures
            b@.len() == Escrow::LEN <==> r is Ok,
            b@.len() != Escrow::LEN ==> r == Err::<Escrow, EscrowError>(EscrowError::InvalidAccountData),
            r matches Ok(e) ==> escrow_layout(e@) == b@ && e@ == escrow_record_of(b@),
    {
        if b.len() != Escrow::LEN {
            return Err(EscrowError::InvalidAccountData);
        }
        let e = Escrow {
            maker: read_array(b, 0),
            mint_a: read_array(b, 32),
            mint_b: read_array(b, 64),
            amount: read_array(b, 96),
            receive: read_array(b, 104),
            seed: read_array(b, 112),
            bump: b[120],
        };
        assert(escrow_layout(e@) =~= b@);
        assert(e.maker@ =~= b@.subrange(0, 32));
        Ok(e)
    }

    /// Encodes the record in its fixed layout.
    pub fn to_bytes(&self) -> (r: Vec<u8>)
        ensures
            r@ == escrow_layout(self@),
            r@.len() == Escrow::LEN,
    {
        let mut out: Vec<u8> = Vec::new();
        push_array(&mut out, &self.maker);
        push_array(&mut out, &self.mint_a);
        push_array(&mut out, &self.mint_b);
        push_array(&mut out, &self.amount);
        push_array(&mut out, &self.receive);
        push_array(&mut out, &self.seed);
        out.push(self.bump);
        assert(out@ =~= escrow_layout(self@));
        out
    }
}

/// Two well-formed records with the same encoding are the same record:
/// decoding what was encoded gives back the encoded fields.
pub proof fn lemma_escrow_layout_injective(v: EscrowView, w: EscrowView)
    requires
        escrow_view_wf(v),
        escrow_view_wf(w),
        escrow_layout(v) == escrow_layout(w),
    ensures
        v == w,
{
    let s = escrow_layout(v);
    assert(v.maker =~= s.subrange(0, 32));
    assert(w.maker =~= s.subrange(0, 32));
    assert(v.mint_a =~= s.subrange(32, 64));
    assert(w.mint_a =~= s.subrange(32, 64));
    assert(v.mint_b =~= s.subrange(64, 96));
    assert(w.mint_b =~= s.subrange(64, 96));
    assert(v.amount =~= s.subrange(96, 104));
    assert(w.amount =~= s.subrange(96, 104));
    assert(v.receive =~= s.subrange(104, 112));
    assert(w.receive =~= s.subrange(104, 112));
    assert(v.seed =~= s.subrange(112, 120));
    assert(w.seed =~= s.subrange(112, 120));
    assert(v.bump == s[120]);
}

/// Decoding an encoded record succeeds and yields the same record.
pub proof fn lemma_escrow_round_trip(e: Escrow, bytes: Seq<u8>, d: Escrow)
    requires
        bytes == escrow_layout(e@),
        escrow_layout(d@) == bytes,
    ensures
        bytes.len() == Escrow::LEN,
        d@ == e@,
{
    lemma_escrow_layout_injective(d@, e@);
}

} // verus!
