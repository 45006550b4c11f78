use vstd::prelude::*;
use crate::bytes::{le_value, read_array, push_array, u64_from_le};
use crate::error::EscrowError;

verus! {

/// Arguments of the Make operation, as they travel on the wire.
#[derive(Clone, Copy, Debug)]
pub struct MakeArgs {
    pub seed: [u8; 8],
    pub amount: [u8; 8],
    pub receive: [u8; 8],
    pub bump: u8,
}

/// The fields of the Make arguments as sequences of bytes.
pub struct MakeArgsView {
    pub seed: Seq<u8>,
    pub amount: Seq<u8>,
    pub receive: Seq<u8>,
    pub bump: u8,
}

impl View for MakeArgs {
    type V = MakeArgsView;

    open spec fn view(&self) -> MakeArgsView {
        MakeArgsView { seed: self.seed@, amount: self.amount@, receive: self.receive@, bump: self.bump }
    }
}

/// The wire layout of the Make arguments: fields in order, no padding.
pub open spec fn make_args_layout(v: MakeArgsView) -> Seq<u8> {
    v.seed + v.amount + v.receive + seq![v.bump]
}

/// Well-formed argument fields: each integer is eight bytes wide.
pub open spec fn make_args_view_wf(v: MakeArgsView) -> bool {
    v.seed.len() == 8 && v.amount.len() == 8 && v.receive.len() == 8
}

impl MakeArgs {
    /// Size in bytes of an encoded argument record.
    pub const LEN: usize = 25;

    /// The derivation salt.
    pub fn seed(&self) -> (r: u64)
        ensures
            r as nat == le_value(self.seed@),
    {
        u64_from_le(&self.seed)
    }

    /// Quantity of the deposited asset.
    pub fn amount(&self) -> (r: u64)
        ensures
            r as nat == le_value(self.amount@),
    {
        u64_from_le(&self.amount)
    }

    /// Quantity of the requested asset.
    pub fn receive(&self) -> (r: u64)
        ensures
            r as nat == le_value(self.receive@),
    {
        u64_from_le(&self.receive)
    }

    /// Decodes the argument payload; it must be exactly `LEN` bytes.
    pub fn try_from(value: &[u8]) -> (r: Result<MakeArgs, EscrowError>)
        ensures
            value@.len() == MakeArgs::LEN <==> r is Ok,
            value@.len() != MakeArgs::LEN ==> r == Err::<MakeArgs, EscrowError>(
                EscrowError::InvalidInstructionData,
            ),
            r matches Ok(a) ==> make_args_layout(a@) == value@,
    {
        if value.len() != MakeArgs::LEN {
            return Err(EscrowError::InvalidInstructionData);
        }
        let a = MakeArgs {
            seed: read_array(value, 0),
            amount: read_array(value, 8),
            receive: read_array(value, 16),
            bump: value[24],
        };
        assert(make_args_layout(a@) =~= value@);
        Ok(a)
    }

    /// Encodes the arguments in their wire layout.
    pub fn to_bytes(&self) -> (r: Vec<u8>)
        ensures
            r@ == make_args_layout(self@),
            r@.len() == MakeArgs::LEN,
    {
        let mut out: Vec<u8> = Vec::new();
        push_array(&mut out, &self.seed);
        push_array(&mut out, &self.amount);
        push_array(&mut out, &self.receive);
        out.push(self.bump);
        assert(out@ =~= make_args_layout(self@));
        out
    }
}

/// Decoding encoded arguments yields the same arguments.
pub proof fn lemma_make_args_round_trip(a: MakeArgsView, bytes: Seq<u8>, d: MakeArgsView)
    requires
        make_args_view_wf(a),
        make_args_view_wf(d),
        bytes == make_args_layout(a),
        make_args_layout(d) == bytes,
    ensures
        bytes.len() == MakeArgs::LEN,
        d == a,
{
    assert(a.seed =~= bytes.subrange(0, 8));
    assert(d.seed =~= bytes.subrange(0, 8));
    assert(a.amount =~= bytes.subrange(8, 16));
    assert(d.amount =~= bytes.subrange(8, 16));
    assert(a.receive =~= bytes.subrange(16, 24));
    assert(d.receive =~= bytes.subrange(16, 24));
    assert(a.bump == bytes[24]);
}

/// The operations of the escrow program, by opcode.
#[derive(Clone, Copy, Debug, PartialEq, Eq, Structural)]
pub enum EscrowInstruction {
    Make,
    Take,
    Refund,
}

/// The opcode of each operation.
pub open spec fn escrow_opcode(i: EscrowInstruction) -> u8 {
    match i {
        EscrowInstruction::Make => 0,
        EscrowInstruction::Take => 1,
        EscrowInstruction::Refund => 2,
    }
}

impl EscrowInstruction {
    /// Decodes an opcode byte.
    pub fn try_from(value: &u8) -> (r: Result<EscrowInstruction, EscrowError>)
        ensures
            *value <= 2 <==> r is Ok,
            *value > 2 ==> r == Err::<EscrowInstruction, EscrowError>(
                EscrowError::InvalidInstructionData,
            ),
            r matches Ok(i) ==> escrow_opcode(i) == *value,
    {
        match *value {
            0 => Ok(EscrowInstruction::Make),
            1 => Ok(EscrowInstruction::Take),
            2 => Ok(EscrowInstruction::Refund),
            _ => Err(EscrowError::InvalidInstructionData),
        }
    }
}

/// The operations of the state scaffold program, by opcode.
#[derive(Clone, Copy, Debug, PartialEq, Eq, Structural)]
pub enum MyProgramInstruction {
    InitializeState,
    UpdateState,
}

impl MyProgramInstruction {
    /// Decodes an opcode byte: `0` initialises, `1` updates.
    pub fn try_from(value: &u8) -> (r: Result<MyProgramInstruction, EscrowError>)
        ensures
            *value == 0 ==> r == Ok::<MyProgramInstruction, EscrowError>(
                MyProgramInstruction::InitializeState,
            ),
            *value == 1 ==> r == Ok::<MyProgramInstruction, EscrowError>(
                MyProgramInstruction::UpdateState,
            ),
            *value > 1 ==> r == Err::<MyProgramInstruction, EscrowError>(
                EscrowError::InvalidInstructionData,
            ),
    {
        match *value {
            0 => Ok(MyProgramInstruction::InitializeState),
            1 => Ok(MyProgramInstruction::UpdateState),
            _ => Err(EscrowError::InvalidInstructionData),
        }
    }
}

/// A decoded instruction: the operation with its arguments.
#[derive(Clone, Copy, Debug)]
pub enum Instruction {
    Make(MakeArgs),
    Take,
    Refund,
}

/// Splits the opcode from the payload and decodes both. Take and Refund
/// carry no arguments, so any payload after their opcode is rejected; Make
/// carries exactly `MakeArgs::LEN` bytes.
pub fn decode_instruction(data: &[u8]) -> (r: Result<Instruction, EscrowError>)
    ensures
        r is Ok <==> data@.len() > 0 && (((data@[0] == 1 || data@[0] == 2) && data@.len() == 1) || (
        data@[0] == 0 && data@.len() == 1 + MakeArgs::LEN)),
        r is Err ==> r == Err::<Instruction, EscrowError>(EscrowError::InvalidInstructionData),
        r matches Ok(Instruction::Make(a)) ==> data@[0] == 0 && make_args_layout(a@)
            == data@.subrange(1, data@.len() as int),
        r matches Ok(Instruction::Take) ==> data@[0] == 1,
        r matches Ok(Instruction::Refund) ==> data@[0] == 2,
{
    if data.len() == 0 {
        return Err(EscrowError::InvalidInstructionData);
    }
    let op = EscrowInstruction::try_from(&data[0])?;
    match op {
        EscrowInstruction::Make => {
            let rest = vstd::slice::slice_subrange(data, 1, data.len());
            match MakeArgs::try_from(rest) {
                Ok(a) => Ok(Instruction::Make(a)),
                Err(e) => Err(e),
            }
        },
        EscrowInstruction::Take => if data.len() == 1 {
            Ok(Instruction::Take)
        } else {
            Err(EscrowError::InvalidInstructionData)
        },
        EscrowInstruction::Refund => if data.len() == 1 {
            Ok(Instruction::Refund)
        } else {
            Err(EscrowError::InvalidInstructionData)
        },
    }
}

} // verus!
