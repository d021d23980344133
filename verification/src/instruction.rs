//! The instructions the program executes and their byte format: a variant
//! byte followed by the variant's payload.

use vstd::prelude::*;
use vstd::bytes::{spec_u64_from_le_bytes, spec_u64_to_le_bytes, u64_from_le_bytes, lemma_auto_spec_u64_to_from_le_bytes};

use crate::NAME;
use crate::error::{ProgramError, ProgramErrorView};
use crate::name::padded_name;

verus! {

/// Instructions that the program can execute.
#[derive(Debug, Clone, Copy, PartialEq, Eq)]
pub enum LoverInstruction {
    /// Create the lover account with this name.
    SetName { new_name: [u8; NAME] },
    /// Add a special number.
    SetSpecialNumber { new_number: u64 },
    /// Raise the love counter.
    IncreaseLove,
}

/// What an instruction says, with the name as a byte sequence.
pub enum InstructionModel {
    SetName(Seq<u8>),
    SetSpecialNumber(u64),
    IncreaseLove,
}

impl View for LoverInstruction {
    type V = InstructionModel;

    open spec fn view(&self) -> InstructionModel {
        match self {
            LoverInstruction::SetName { new_name } => InstructionModel::SetName(new_name@),
            LoverInstruction::SetSpecialNumber { new_number } => InstructionModel::SetSpecialNumber(
                *new_number,
            ),
            LoverInstruction::IncreaseLove => InstructionModel::IncreaseLove,
        }
    }
}

/// The instruction that `input` encodes: variant byte 0 carries a name
/// (the rest of the input, cut or zero-padded to `NAME` bytes), variant 1
/// carries a number as exactly eight little-endian bytes, variant 2 carries
/// nothing (further bytes are ignored). Anything else is invalid.
pub open spec fn spec_unpack(input: Seq<u8>) -> Result<InstructionModel, ProgramErrorView> {
    if input.len() == 0 {
        Err(ProgramErrorView::InvalidInstructionData)
    } else if input[0] == 0 {
        Ok(InstructionModel::SetName(padded_name(input.drop_first())))
    } else if input[0] == 1 {
        if input.len() == 9 {
            Ok(InstructionModel::SetSpecialNumber(spec_u64_from_le_bytes(input.drop_first())))
        } else {
            Err(ProgramErrorView::InvalidInstructionData)
        }
    } else if input[0] == 2 {
        Ok(InstructionModel::IncreaseLove)
    } else {
        Err(ProgramErrorView::InvalidInstructionData)
    }
}

/// The bytes a client sends for an instruction.
pub open spec fn instruction_bytes(i: InstructionModel) -> Seq<u8> {
    match i {
        InstructionModel::SetName(name) => seq![0u8] + name,
        InstructionModel::SetSpecialNumber(n) => seq![1u8] + spec_u64_to_le_bytes(n),
        InstructionModel::IncreaseLove => seq![2u8],
    }
}

/// The instruction a client builds is the one the program reads: for each
/// instruction with a full `NAME`-byte name field, unpacking its bytes gives
/// it back.
pub proof fn lemma_unpack_instruction_bytes(i: InstructionModel)
    requires
        i matches InstructionModel::SetName(name) ==> name.len() == NAME,
    ensures
        spec_unpack(instruction_bytes(i)) == Ok::<InstructionModel, ProgramErrorView>(i),
{
    lemma_auto_spec_u64_to_from_le_bytes();
    match i {
        InstructionModel::SetName(name) => {
            assert((seq![0u8] + name).drop_first() =~= name);
            assert(padded_name(name) =~= name);
        },
        InstructionModel::SetSpecialNumber(n) => {
            assert((seq![1u8] + spec_u64_to_le_bytes(n)).drop_first() =~= spec_u64_to_le_bytes(n));
        },
        InstructionModel::IncreaseLove => {},
    }
}

/// How instruction bytes are read, byte by byte: an empty input or an
/// unknown variant byte is invalid; variant 0 takes the next `NAME` bytes as
/// the name (missing bytes are zero, extra bytes are dropped); variant 1 is
/// valid only with exactly eight more bytes, read little-endian; variant 2
/// ignores whatever follows.
pub proof fn lemma_unpack_bytes(input: Seq<u8>)
    ensures
        input.len() == 0 || input[0] > 2 ==> spec_unpack(input) == Err::<
            InstructionModel,
            ProgramErrorView,
        >(ProgramErrorView::InvalidInstructionData),
        input.len() > 0 && input[0] == 0 ==> (spec_unpack(input) matches Ok(
            InstructionModel::SetName(name),
        ) && name.len() == NAME && (forall|i: int|
            0 <= i < NAME ==> name[i] == (if i + 1 < input.len() {
                input[i + 1]
            } else {
                0u8
            }))),
        input.len() > 0 && input[0] == 1 && input.len() != 9 ==> spec_unpack(input) == Err::<
            InstructionModel,
            ProgramErrorView,
        >(ProgramErrorView::InvalidInstructionData),
        input.len() == 9 && input[0] == 1 ==> spec_unpack(input) == Ok::<
            InstructionModel,
            ProgramErrorView,
        >(InstructionModel::SetSpecialNumber(spec_u64_from_le_bytes(input.subrange(1, 9)))),
        input.len() > 0 && input[0] == 2 ==> spec_unpack(input) == Ok::<
            InstructionModel,
            ProgramErrorView,
        >(InstructionModel::IncreaseLove),
{
    if input.len() > 0 {
        assert(input.drop_first() =~= input.subrange(1, input.len() as int));
    }
}

impl LoverInstruction {
    /// Reads an instruction from its bytes, as `spec_unpack` describes;
    /// an input that encodes none gives `InvalidInstructionData`.
    pub fn unpack(input: &[u8]) -> (r: Result<Self, ProgramError>)
        ensures
            match r {
                Ok(i) => spec_unpack(input@) == Ok::<InstructionModel, ProgramErrorView>(i@),
                Err(e) => spec_unpack(input@) == Err::<InstructionModel, ProgramErrorView>(e@),
            },
    {
        if input.len() == 0 {
            return Err(ProgramError::InvalidInstructionData);
        }
        let variant: u8 = input[0];
        let rest = &input[1..input.len()];
        if variant == 0 {
            let mut new_name = [0u8; NAME];
            let len: usize = if rest.len() < NAME { rest.len() } else { NAME };
            let mut i: usize = 0;
            while i < len
                invariant
                    len <= NAME,
                    len <= rest@.len(),
                    len == rest@.len() || len == NAME,
                    rest@ == input@.drop_first(),
                    i <= len,
                    forall|j: int| 0 <= j < i ==> new_name@[j] == rest@[j],
                    forall|j: int| i <= j < NAME ==> new_name@[j] == 0,
                decreases len - i,
            {
                new_name[i] = rest[i];
                i = i + 1;
            }
            assert(new_name@ =~= padded_name(input@.drop_first()));
            Ok(LoverInstruction::SetName { new_name })
        } else if variant == 1 {
            if rest.len() == 8 {
                assert(rest@ =~= input@.drop_first());
                let new_number: u64 = u64_from_le_bytes(rest);
                Ok(LoverInstruction::SetSpecialNumber { new_number })
            } else {
                Err(ProgramError::InvalidInstructionData)
            }
        } else if variant == 2 {
            Ok(LoverInstruction::IncreaseLove)
        } else {
            Err(ProgramError::InvalidInstructionData)
        }
    }
}

} // verus!
