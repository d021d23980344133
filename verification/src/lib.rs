//! The on-chain logic of the special-numbers program: the instruction
//! format, the lover account record and its byte layout, and the rules that
//! decide what each instruction does to an account.
//!
//! Everything that talks to the runtime (account borrowing, rent, the
//! account-creation call, logging) lives outside this crate; the functions
//! here take and return plain values and say in their contracts exactly what
//! the program decides.

pub mod borsh_io;
pub mod error;
pub mod lover;
pub mod instruction;
pub mod name;
pub mod processor;

pub use error::{CustomError, ProgramError};
pub use instruction::LoverInstruction;
pub use lover::Lover;
pub use name::{string_to_u8, u8_to_string};
pub use processor::{process_instruction, AccountSnapshot, Effect};

use vstd::prelude::*;

verus! {

/// Number of bytes in a lover's name.
pub const NAME: usize = 32;

/// Number of special numbers a lover can hold.
pub const MAX_SPECIAL: usize = 5;

/// Size in bytes of a lover account's data: the name, the special numbers
/// (eight bytes each) and the love counter.
pub const ACCOUNT_SPACE: usize = NAME + MAX_SPECIAL * 8 + 1;

} // verus!
