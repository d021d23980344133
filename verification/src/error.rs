//! The errors the program reports.

use vstd::prelude::*;

verus! {

/// The program's own failure codes, reported to the runtime as
/// `ProgramError::Custom(code)` with codes 0, 1 and 2 in this order.
#[derive(Debug, Clone, Copy, PartialEq, Eq)]
pub enum CustomError {
    /// The number is already one of the lover's special numbers.
    AlreadySpecial,
    /// The lover has no free slot: they need more love first.
    NotEnoughLove,
    /// The love counter is already at its maximum.
    TooMuchLove,
}

impl CustomError {
    /// The numeric code of this error.
    pub open spec fn spec_code(self) -> u32 {
        match self {
            CustomError::AlreadySpecial => 0,
            CustomError::NotEnoughLove => 1,
            CustomError::TooMuchLove => 2,
        }
    }

    /// The numeric code of this error, as the runtime reports it.
    pub fn code(&self) -> (c: u32)
        ensures
            c == self.spec_code(),
    {
        match self {
            CustomError::AlreadySpecial => 0,
            CustomError::NotEnoughLove => 1,
            CustomError::TooMuchLove => 2,
        }
    }
}

/// The errors this program returns to the runtime: the part of the
/// runtime's error type that the program's logic produces.
#[derive(Debug, Clone, PartialEq, Eq)]
pub enum ProgramError {
    /// The instruction data does not encode an instruction.
    InvalidInstructionData,
    /// Fewer accounts were passed than the instruction needs.
    NotEnoughAccountKeys,
    /// The lover account is not owned by this program.
    IncorrectProgramId,
    /// Reading or writing an account record failed; the text is the
    /// reading or writing library's message.
    BorshIoError(String),
    /// One of the program's own errors, by its code.
    Custom(u32),
}

/// What a `ProgramError` says, with its message as text.
pub enum ProgramErrorView {
    InvalidInstructionData,
    NotEnoughAccountKeys,
    IncorrectProgramId,
    BorshIoError(Seq<char>),
    Custom(u32),
}

impl View for ProgramError {
    type V = ProgramErrorView;

    open spec fn view(&self) -> ProgramErrorView {
        match self {
            ProgramError::InvalidInstructionData => ProgramErrorView::InvalidInstructionData,
            ProgramError::NotEnoughAccountKeys => ProgramErrorView::NotEnoughAccountKeys,
            ProgramError::IncorrectProgramId => ProgramErrorView::IncorrectProgramId,
            ProgramError::BorshIoError(m) => ProgramErrorView::BorshIoError(m@),
            ProgramError::Custom(c) => ProgramErrorView::Custom(*c),
        }
    }
}

impl From<CustomError> for ProgramError {
    fn from(e: CustomError) -> (r: Self) {
        ProgramError::Custom(e.code())
    }
}

impl vstd::std_specs::convert::FromSpecImpl<CustomError> for ProgramError {
    open spec fn obeys_from_spec() -> bool {
        true
    }

    open spec fn from_spec(e: CustomError) -> ProgramError {
        ProgramError::Custom(e.spec_code())
    }
}

} // verus!
