//! What each instruction does to the accounts it is given.
//!
//! The runtime side (borrowing account data, computing rent, creating the
//! account, writing data back) is done by the caller; the functions here
//! take a snapshot of the accounts and decide the outcome: an error, or the
//! effect to carry out.

use vstd::prelude::*;

use crate::{ACCOUNT_SPACE, MAX_SPECIAL};
use crate::borsh_io::borsh_read_error;
use crate::error::{CustomError, ProgramError, ProgramErrorView};
use crate::instruction::{spec_unpack, InstructionModel, LoverInstruction};
use crate::lover::{
    account_bytes, account_model, lemma_account_bytes_roundtrip, lemma_account_model_roundtrip,
    lemma_count_is_first_zero, lemma_is_special_iff, Lover, LoverModel,
};
use crate::NAME;

verus! {

/// Number of bytes in an account address.
pub const KEY_BYTES: usize = 32;

/// What the program reads of an account: the address of the program that
/// owns it and its data.
#[derive(Debug, Clone, PartialEq, Eq)]
pub struct AccountSnapshot {
    pub owner: [u8; KEY_BYTES],
    pub data: Vec<u8>,
}

/// The change an instruction makes, to be carried out by the caller; the
/// accounts are named by their position in the accounts passed.
#[derive(Debug, Clone, PartialEq, Eq)]
pub enum Effect {
    /// Create account `account` with `space` bytes, owned by the program and
    /// paid for by account `payer` through the system program (account
    /// `system_program`), then write `data` at the start of its data.
    CreateAccount { account: usize, payer: usize, system_program: usize, space: u64, data: Vec<u8> },
    /// Write `data` at the start of the data of account `account`.
    WriteData { account: usize, data: Vec<u8> },
}

/// What an `Effect` says.
pub enum EffectView {
    CreateAccount { account: usize, payer: usize, system_program: usize, space: u64, data: Seq<u8> },
    WriteData { account: usize, data: Seq<u8> },
}

impl View for Effect {
    type V = EffectView;

    open spec fn view(&self) -> EffectView {
        match self {
            Effect::CreateAccount { account, payer, system_program, space, data } => {
                EffectView::CreateAccount {
                    account: *account,
                    payer: *payer,
                    system_program: *system_program,
                    space: *space,
                    data: data@,
                }
            },
            Effect::WriteData { account, data } => EffectView::WriteData {
                account: *account,
                data: data@,
            },
        }
    }
}

/// The outcome, as views, of a function returning an effect or an error.
pub open spec fn outcome_view(r: Result<Effect, ProgramError>) -> Result<EffectView, ProgramErrorView> {
    match r {
        Ok(e) => Ok(e@),
        Err(e) => Err(e@),
    }
}

/// A fresh lover record with this name field.
pub open spec fn initial_lover(name: Seq<u8>) -> LoverModel {
    LoverModel { name, special_numbers: Seq::new(MAX_SPECIAL as nat, |i: int| 0u64), love: 0 }
}

/// Outcome of setting the name: three accounts are needed, in this order
/// the new account, the payer and the system program; the new account gets
/// `ACCOUNT_SPACE` bytes holding a fresh record with this name.
pub open spec fn initialize_outcome(accounts: Seq<AccountSnapshot>, name: Seq<u8>) -> Result<
    EffectView,
    ProgramErrorView,
> {
    if accounts.len() < 3 {
        Err(ProgramErrorView::NotEnoughAccountKeys)
    } else {
        Ok(
            EffectView::CreateAccount {
                account: 0,
                payer: 1,
                system_program: 2,
                space: ACCOUNT_SPACE as u64,
                data: account_bytes(initial_lover(name)),
            },
        )
    }
}

/// Checks common to the instructions that change an existing record: the
/// account is there, the program owns it, and its data holds a record.
pub open spec fn account_check(program_id: Seq<u8>, accounts: Seq<AccountSnapshot>) -> Option<
    ProgramErrorView,
> {
    if accounts.len() < 1 {
        Some(ProgramErrorView::NotEnoughAccountKeys)
    } else if accounts[0].owner@ != program_id {
        Some(ProgramErrorView::IncorrectProgramId)
    } else if accounts[0].data@.len() != ACCOUNT_SPACE {
        Some(ProgramErrorView::BorshIoError(borsh_read_error(accounts[0].data@)))
    } else {
        None
    }
}

/// Outcome of adding a special number: after the account checks, the
/// number must not be special already (`AlreadySpecial`), no more numbers
/// may be set than the love counter (`NotEnoughLove`); then it is stored in
/// the slot the love counter names.
pub open spec fn set_special_number_outcome(
    program_id: Seq<u8>,
    accounts: Seq<AccountSnapshot>,
    new_number: u64,
) -> Result<EffectView, ProgramErrorView> {
    match account_check(program_id, accounts) {
        Some(e) => Err(e),
        None => {
            let l = account_model(accounts[0].data@);
            if l.is_special(new_number) {
                Err(ProgramErrorView::Custom(CustomError::AlreadySpecial.spec_code()))
            } else if l.count() > l.love {
                Err(ProgramErrorView::Custom(CustomError::NotEnoughLove.spec_code()))
            } else {
                Ok(
                    EffectView::WriteData {
                        account: 0,
                        data: account_bytes(
                            LoverModel {
                                special_numbers: l.special_numbers.update(l.love as int, new_number),
                                ..l
                            },
                        ),
                    },
                )
            }
        },
    }
}

/// Adding `new_number` would index past the list: the record's love
/// counter is out of range and the number is not special already.
pub open spec fn set_special_number_panics(
    program_id: Seq<u8>,
    accounts: Seq<AccountSnapshot>,
    new_number: u64,
) -> bool {
    &&& account_check(program_id, accounts) is None
    &&& account_model(accounts[0].data@).love >= MAX_SPECIAL
    &&& !account_model(accounts[0].data@).is_special(new_number)
}

/// Outcome of raising the love counter: after the account checks, the
/// counter must be below `MAX_SPECIAL - 1` (`TooMuchLove`).
pub open spec fn increase_love_outcome(program_id: Seq<u8>, accounts: Seq<AccountSnapshot>) -> Result<
    EffectView,
    ProgramErrorView,
> {
    match account_check(program_id, accounts) {
        Some(e) => Err(e),
        None => {
            let l = account_model(accounts[0].data@);
            if l.love < MAX_SPECIAL - 1 {
                Ok(
                    EffectView::WriteData {
                        account: 0,
                        data: account_bytes(LoverModel { love: (l.love + 1) as u8, ..l }),
                    },
                )
            } else {
                Err(ProgramErrorView::Custom(CustomError::TooMuchLove.spec_code()))
            }
        },
    }
}

/// Outcome of an instruction given as bytes.
pub open spec fn process_outcome(
    program_id: Seq<u8>,
    accounts: Seq<AccountSnapshot>,
    instruction_data: Seq<u8>,
) -> Result<EffectView, ProgramErrorView> {
    match spec_unpack(instruction_data) {
        Err(e) => Err(e),
        Ok(InstructionModel::SetName(name)) => initialize_outcome(accounts, name),
        Ok(InstructionModel::SetSpecialNumber(n)) => set_special_number_outcome(program_id, accounts, n),
        Ok(InstructionModel::IncreaseLove) => increase_love_outcome(program_id, accounts),
    }
}

/// The instruction is one whose execution would index past the list.
pub open spec fn process_panics(
    program_id: Seq<u8>,
    accounts: Seq<AccountSnapshot>,
    instruction_data: Seq<u8>,
) -> bool {
    spec_unpack(instruction_data) matches Ok(InstructionModel::SetSpecialNumber(n))
        && set_special_number_panics(program_id, accounts, n)
}

/// The love counter stays in range: if the lover account's record (when
/// there is one) has its counter below `MAX_SPECIAL`, no instruction indexes
/// past the list, and each record an instruction writes is a full
/// `ACCOUNT_SPACE`-byte record whose counter is again below `MAX_SPECIAL`
/// (zero for a new account). Records the program writes thus never make it
/// panic.
pub proof fn lemma_love_stays_in_range(
    program_id: Seq<u8>,
    accounts: Seq<AccountSnapshot>,
    instruction_data: Seq<u8>,
)
    requires
        accounts.len() >= 1 && accounts[0].data@.len() == ACCOUNT_SPACE ==> account_model(
            accounts[0].data@,
        ).love < MAX_SPECIAL,
    ensures
        !process_panics(program_id, accounts, instruction_data),
        process_outcome(program_id, accounts, instruction_data) matches Ok(
            EffectView::WriteData { data, .. },
        ) ==> data.len() == ACCOUNT_SPACE && account_model(data).love < MAX_SPECIAL,
        process_outcome(program_id, accounts, instruction_data) matches Ok(
            EffectView::CreateAccount { space, data, .. },
        ) ==> space == ACCOUNT_SPACE && data.len() == ACCOUNT_SPACE && account_model(data).love == 0,
{
    match spec_unpack(instruction_data) {
        Ok(InstructionModel::SetName(name)) => {
            if accounts.len() >= 3 {
                assert(name.len() == NAME);
                lemma_account_bytes_roundtrip(initial_lover(name));
            }
        },
        Ok(InstructionModel::SetSpecialNumber(n)) => {
            if account_check(program_id, accounts) is None {
                let l = account_model(accounts[0].data@);
                lemma_account_model_roundtrip(accounts[0].data@);
                lemma_account_bytes_roundtrip(
                    LoverModel {
                        special_numbers: l.special_numbers.update(l.love as int, n),
                        ..l
                    },
                );
            }
        },
        Ok(InstructionModel::IncreaseLove) => {
            if account_check(program_id, accounts) is None {
                let l = account_model(accounts[0].data@);
                lemma_account_model_roundtrip(accounts[0].data@);
                lemma_account_bytes_roundtrip(LoverModel { love: (l.love + 1) as u8, ..l });
            }
        },
        Err(_) => {},
    }
}

/// An instruction given as bytes does what its unpacked instruction's
/// handler does: setting the name, adding a special number or raising the
/// love counter, and an input that is no instruction fails with the
/// unpacking error.
pub proof fn lemma_process_dispatch(
    program_id: Seq<u8>,
    accounts: Seq<AccountSnapshot>,
    instruction_data: Seq<u8>,
)
    ensures
        spec_unpack(instruction_data) matches Ok(InstructionModel::SetName(name)) ==> process_outcome(
            program_id,
            accounts,
            instruction_data,
        ) == initialize_outcome(accounts, name),
        spec_unpack(instruction_data) matches Ok(InstructionModel::SetSpecialNumber(n))
            ==> process_outcome(program_id, accounts, instruction_data)
            == set_special_number_outcome(program_id, accounts, n),
        spec_unpack(instruction_data) matches Ok(InstructionModel::IncreaseLove) ==> process_outcome(
            program_id,
            accounts,
            instruction_data,
        ) == increase_love_outcome(program_id, accounts),
        spec_unpack(instruction_data) matches Err(e) ==> process_outcome(
            program_id,
            accounts,
            instruction_data,
        ) == Err::<EffectView, ProgramErrorView>(e),
{
}

/// Adding a number that is already set is refused with code 0
/// (`AlreadySpecial`), whatever the love counter: "already set" means equal
/// to some entry `i` of the stored record with only non-zero entries up to
/// and including `i`, so every number set counts, not only the last one.
pub proof fn lemma_set_refuses_a_set_number(
    program_id: Seq<u8>,
    accounts: Seq<AccountSnapshot>,
    new_number: u64,
    i: int,
)
    requires
        account_check(program_id, accounts) is None,
        0 <= i < MAX_SPECIAL,
        forall|j: int| 0 <= j <= i ==> account_model(accounts[0].data@).special_numbers[j] != 0,
        account_model(accounts[0].data@).special_numbers[i] == new_number,
    ensures
        set_special_number_outcome(program_id, accounts, new_number) == Err::<
            EffectView,
            ProgramErrorView,
        >(ProgramErrorView::Custom(0)),
{
    let l = account_model(accounts[0].data@);
    lemma_is_special_iff(l, new_number);
    assert(l.special_numbers[i] == new_number);
}

/// The stored record's numbers do not include `new_number`: no entry equal
/// to it has only non-zero entries up to and including it.
pub open spec fn not_yet_set(l: LoverModel, new_number: u64) -> bool {
    forall|i: int|
        #![trigger l.special_numbers[i]]
        0 <= i < MAX_SPECIAL && l.special_numbers[i] == new_number ==> exists|j: int|
            0 <= j <= i && l.special_numbers[j] == 0
}

/// A number that is not set yet is stored when a zero entry lies at or
/// before the slot the love counter names (no more numbers are set than the
/// counter allows): the first account is rewritten with a full record that
/// reads back as the old one with that slot replaced by the number, and
/// nothing else changed.
pub proof fn lemma_set_stores_in_love_slot(
    program_id: Seq<u8>,
    accounts: Seq<AccountSnapshot>,
    new_number: u64,
    z: int,
)
    requires
        account_check(program_id, accounts) is None,
        account_model(accounts[0].data@).love < MAX_SPECIAL,
        0 <= z <= account_model(accounts[0].data@).love,
        account_model(accounts[0].data@).special_numbers[z] == 0,
        not_yet_set(account_model(accounts[0].data@), new_number),
    ensures
        set_special_number_outcome(program_id, accounts, new_number) matches Ok(
            EffectView::WriteData { account, data },
        ) && account == 0 && data.len() == ACCOUNT_SPACE && account_model(data) == (LoverModel {
            special_numbers: account_model(accounts[0].data@).special_numbers.update(
                account_model(accounts[0].data@).love as int,
                new_number,
            ),
            ..account_model(accounts[0].data@)
        }),
{
    let l = account_model(accounts[0].data@);
    lemma_account_model_roundtrip(accounts[0].data@);
    lemma_is_special_iff(l, new_number);
    lemma_count_is_first_zero(l.special_numbers);
    if l.is_special(new_number) {
        let i = choose|i: int|
            #![trigger l.special_numbers[i]]
            0 <= i < l.special_numbers.len() && l.special_numbers[i] == new_number && forall|j: int|
                0 <= j <= i ==> l.special_numbers[j] != 0;
        assert(l.special_numbers[i] == new_number);
        assert(false);
    }
    assert(l.count() <= z);
    let m = LoverModel {
        special_numbers: l.special_numbers.update(l.love as int, new_number),
        ..l
    };
    lemma_account_bytes_roundtrip(m);
}

/// A number that is not set yet is refused with code 1 (`NotEnoughLove`)
/// when every slot up to and including the one the love counter names
/// already holds a number.
pub proof fn lemma_set_refuses_without_love(
    program_id: Seq<u8>,
    accounts: Seq<AccountSnapshot>,
    new_number: u64,
)
    requires
        account_check(program_id, accounts) is None,
        account_model(accounts[0].data@).love < MAX_SPECIAL,
        forall|j: int|
            0 <= j <= account_model(accounts[0].data@).love ==> account_model(
                accounts[0].data@,
            ).special_numbers[j] != 0,
        not_yet_set(account_model(accounts[0].data@), new_number),
    ensures
        set_special_number_outcome(program_id, accounts, new_number) == Err::<
            EffectView,
            ProgramErrorView,
        >(ProgramErrorView::Custom(1)),
{
    let l = account_model(accounts[0].data@);
    lemma_is_special_iff(l, new_number);
    lemma_count_is_first_zero(l.special_numbers);
    if l.is_special(new_number) {
        let i = choose|i: int|
            #![trigger l.special_numbers[i]]
            0 <= i < l.special_numbers.len() && l.special_numbers[i] == new_number && forall|j: int|
                0 <= j <= i ==> l.special_numbers[j] != 0;
        assert(l.special_numbers[i] == new_number);
        assert(false);
    }
    if l.count() <= l.love {
        assert(l.special_numbers[l.count() as int] == 0);
    }
}

/// Raising love while the counter is below `MAX_SPECIAL - 1` rewrites the
/// first account with a full record that reads back as the old one with
/// the counter one higher, the name and every special number unchanged.
pub proof fn lemma_increase_love_adds_one(program_id: Seq<u8>, accounts: Seq<AccountSnapshot>)
    requires
        account_check(program_id, accounts) is None,
        account_model(accounts[0].data@).love + 1 < MAX_SPECIAL,
    ensures
        increase_love_outcome(program_id, accounts) matches Ok(EffectView::WriteData { account, data })
            && account == 0 && data.len() == ACCOUNT_SPACE && account_model(data).name
            == account_model(accounts[0].data@).name && account_model(data).special_numbers
            == account_model(accounts[0].data@).special_numbers && account_model(data).love
            == account_model(accounts[0].data@).love + 1,
{
    let l = account_model(accounts[0].data@);
    lemma_account_model_roundtrip(accounts[0].data@);
    lemma_account_bytes_roundtrip(LoverModel { love: (l.love + 1) as u8, ..l });
}

/// Raising love once the counter has reached `MAX_SPECIAL - 1` is refused
/// with code 2 (`TooMuchLove`).
pub proof fn lemma_increase_love_capped(program_id: Seq<u8>, accounts: Seq<AccountSnapshot>)
    requires
        account_check(program_id, accounts) is None,
        account_model(accounts[0].data@).love + 1 >= MAX_SPECIAL,
    ensures
        increase_love_outcome(program_id, accounts) == Err::<EffectView, ProgramErrorView>(
            ProgramErrorView::Custom(2),
        ),
{
}

fn same_key(a: &[u8; KEY_BYTES], b: &[u8; KEY_BYTES]) -> (r: bool)
    ensures
        r == (a@ == b@),
{
    let mut i: usize = 0;
    while i < KEY_BYTES
        invariant
            i <= KEY_BYTES,
            forall|j: int| 0 <= j < i ==> a@[j] == b@[j],
        decreases KEY_BYTES - i,
    {
        if a[i] != b[i] {
            return false;
        }
        i = i + 1;
    }
    assert(a@ =~= b@);
    true
}

/// Runs the account checks and reads the record.
fn load_lover(program_id: &[u8; KEY_BYTES], accounts: &[AccountSnapshot]) -> (r: Result<
    Lover,
    ProgramError,
>)
    ensures
        match r {
            Ok(l) => account_check(program_id@, accounts@) is None && l@ == account_model(
                accounts@[0].data@,
            ),
            Err(e) => account_check(program_id@, accounts@) == Some(e@),
        },
{
    if accounts.len() < 1 {
        return Err(ProgramError::NotEnoughAccountKeys);
    }
    let lover_account = &accounts[0];
    if !same_key(&lover_account.owner, program_id) {
        return Err(ProgramError::IncorrectProgramId);
    }
    Lover::from_account_data(lover_account.data.as_slice())
}

/// Whether executing the instruction would index past the list of special
/// numbers, which `process_instruction` does not accept: callers test this
/// first and stop as the program does.
pub fn instruction_panics(
    program_id: &[u8; KEY_BYTES],
    accounts: &[AccountSnapshot],
    instruction_data: &[u8],
) -> (r: bool)
    ensures
        r == process_panics(program_id@, accounts@, instruction_data@),
{
    match LoverInstruction::unpack(instruction_data) {
        Ok(LoverInstruction::SetSpecialNumber { new_number }) => match load_lover(program_id, accounts) {
            Ok(lover) => (lover.love as usize) >= MAX_SPECIAL && !lover.is_special(new_number),
            Err(_) => false,
        },
        _ => false,
    }
}

/// Creates the lover account with the given name: a fresh record (no
/// special numbers, no love) to be written into a new account of
/// `ACCOUNT_SPACE` bytes.
pub fn process_initialize_account(accounts: &[AccountSnapshot], new_name: [u8; NAME]) -> (r: Result<
    Effect,
    ProgramError,
>)
    ensures
        outcome_view(r) == initialize_outcome(accounts@, new_name@),
{
    if accounts.len() < 3 {
        return Err(ProgramError::NotEnoughAccountKeys);
    }
    let account_space: usize = NAME + (MAX_SPECIAL * 8) + 1;
    let love_data = Lover { name: new_name, special_numbers: [0, 0, 0, 0, 0], love: 0 };
    assert(love_data@.special_numbers =~= initial_lover(new_name@).special_numbers);
    let data = love_data.to_account_data()?;
    Ok(Effect::CreateAccount { account: 0, payer: 1, system_program: 2, space: account_space as u64, data })
}

/// Adds a special number to the lover in the first account.
pub fn set_special_number(
    program_id: &[u8; KEY_BYTES],
    accounts: &[AccountSnapshot],
    new_number: u64,
) -> (r: Result<Effect, ProgramError>)
    requires
        !set_special_number_panics(program_id@, accounts@, new_number),
    ensures
        outcome_view(r) == set_special_number_outcome(program_id@, accounts@, new_number),
{
    let mut lover_data = load_lover(program_id, accounts)?;
    match lover_data.try_set_special_number(new_number) {
        Ok(()) => {
            let data = lover_data.to_account_data()?;
            Ok(Effect::WriteData { account: 0, data })
        },
        Err(e) => Err(ProgramError::from(e)),
    }
}

/// Raises the love counter of the lover in the first account.
pub fn increase_love(program_id: &[u8; KEY_BYTES], accounts: &[AccountSnapshot]) -> (r: Result<
    Effect,
    ProgramError,
>)
    ensures
        outcome_view(r) == increase_love_outcome(program_id@, accounts@),
{
    let mut lover_data = load_lover(program_id, accounts)?;
    match lover_data.try_increase_love() {
        Ok(()) => {
            let data = lover_data.to_account_data()?;
            Ok(Effect::WriteData { account: 0, data })
        },
        Err(e) => Err(ProgramError::from(e)),
    }
}

/// Executes an instruction given as bytes against a snapshot of its
/// accounts, returning the effect to carry out or the error to report.
pub fn process_instruction(
    program_id: &[u8; KEY_BYTES],
    accounts: &[AccountSnapshot],
    instruction_data: &[u8],
) -> (r: Result<Effect, ProgramError>)
    requires
        !process_panics(program_id@, accounts@, instruction_data@),
    ensures
        outcome_view(r) == process_outcome(program_id@, accounts@, instruction_data@),
{
    let instruction = LoverInstruction::unpack(instruction_data)?;
    match instruction {
        LoverInstruction::SetSpecialNumber { new_number } => {
            set_special_number(program_id, accounts, new_number)
        },
        LoverInstruction::SetName { new_name } => process_initialize_account(accounts, new_name),
        LoverInstruction::IncreaseLove => increase_love(program_id, accounts),
    }
}

} // verus!
