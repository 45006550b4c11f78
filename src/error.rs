use vstd::prelude::*;

verus! {

/// Why an instruction was rejected.
#[derive(Clone, Copy, Debug, PartialEq, Eq, Structural)]
pub enum EscrowError {
    /// The account list is not the one the operation expects.
    NotEnoughAccountKeys,
    /// Unknown opcode or an argument payload of the wrong size.
    InvalidInstructionData,
    /// The escrow account does not hold a record of the right size.
    InvalidAccountData,
    /// No derived address could be computed for the seeds.
    InvalidSeeds,
    /// A balance addition overflowed.
    ArithmeticOverflow,
    /// The account that must authorise the operation did not sign.
    MissingRequiredSignature,
    /// The escrow account is not owned by this program.
    IllegalOwner,
    /// The maker recorded in the escrow is not the maker supplied.
    MakerMismatch,
    /// A mint recorded in the escrow is not the mint supplied.
    MintMismatch,
    /// The supplied escrow account is not at its derived address.
    AddressMismatch,
}

} // verus!
