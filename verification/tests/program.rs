use special_numbers::instruction::LoverInstruction;
use special_numbers::lover::Lover;
use special_numbers::processor::{
    increase_love, instruction_panics, process_initialize_account, process_instruction,
    set_special_number, AccountSnapshot, Effect,
};
use special_numbers::{string_to_u8, u8_to_string, CustomError, ProgramError, ACCOUNT_SPACE, MAX_SPECIAL, NAME};

const PROGRAM: [u8; 32] = [7u8; 32];
const OTHER: [u8; 32] = [9u8; 32];

fn owned(data: Vec<u8>) -> AccountSnapshot {
    AccountSnapshot { owner: PROGRAM, data }
}

fn record(name: [u8; NAME], special_numbers: [u64; MAX_SPECIAL], love: u8) -> Vec<u8> {
    Lover { name, special_numbers, love }.to_account_data().unwrap()
}

fn written(effect: Effect) -> Lover {
    match effect {
        Effect::WriteData { account, data } => {
            assert_eq!(account, 0);
            Lover::from_account_data(&data).unwrap()
        }
        other => panic!("expected a write, got {:?}", other),
    }
}

fn set_number_data(n: u64) -> Vec<u8> {
    let mut data = vec![1];
    data.extend_from_slice(&n.to_le_bytes());
    data
}

#[test]
fn test_special_numbers() {
    // initialization
    let new_name = "TurtleGod";
    let name = string_to_u8(new_name);
    let mut lover_data = vec![0];
    lover_data.extend_from_slice(&name);
    let accounts = vec![owned(vec![]), owned(vec![]), owned(vec![])];
    let account_data = match process_instruction(&PROGRAM, &accounts, &lover_data).unwrap() {
        Effect::CreateAccount { account, payer, system_program, space, data } => {
            assert_eq!((account, payer, system_program), (0, 1, 2));
            assert_eq!(space, 73);
            data
        }
        other => panic!("expected an account creation, got {:?}", other),
    };
    let lover = Lover::from_account_data(&account_data).unwrap();
    assert_eq!(lover.name, name);

    // adding the first special number
    let accounts = vec![owned(account_data)];
    let lover = written(process_instruction(&PROGRAM, &accounts, &set_number_data(69)).unwrap());
    assert_eq!(lover.special_numbers, [69, 0, 0, 0, 0]);

    // a second number is refused until there is more love
    let accounts = vec![owned(lover.to_account_data().unwrap())];
    let result = process_instruction(&PROGRAM, &accounts, &set_number_data(420));
    assert_eq!(result, Err(ProgramError::Custom(CustomError::NotEnoughLove as u32)));

    // more love
    let lover = written(process_instruction(&PROGRAM, &accounts, &[2]).unwrap());
    assert_eq!(lover.love, 1);

    // now the second number goes through
    let accounts = vec![owned(lover.to_account_data().unwrap())];
    let lover = written(process_instruction(&PROGRAM, &accounts, &set_number_data(42)).unwrap());
    assert_eq!(lover.special_numbers[1], 42);
}

#[test]
fn name_round_trip() {
    let name = string_to_u8("TurtleGod");
    assert_eq!(&name[..9], b"TurtleGod");
    assert!(name[9..].iter().all(|&b| b == 0));
    assert_eq!(u8_to_string(name), "TurtleGod");
}

#[test]
fn long_name_is_cut() {
    let long = "abcdefghijklmnopqrstuvwxyz0123456789";
    let name = string_to_u8(long);
    assert_eq!(&name[..], &long.as_bytes()[..32]);
    assert_eq!(u8_to_string(name), "abcdefghijklmnopqrstuvwxyz012345");
}

#[test]
fn empty_name() {
    assert_eq!(string_to_u8(""), [0u8; 32]);
    assert_eq!(u8_to_string([0u8; 32]), "");
}

#[test]
fn name_stops_at_first_zero() {
    let mut field = [0u8; 32];
    field[0] = b'h';
    field[1] = b'i';
    field[3] = b'x';
    assert_eq!(u8_to_string(field), "hi");
}

#[test]
fn cut_multibyte_name_is_replaced() {
    // 31 ASCII bytes then a two-byte character: only its first byte fits
    let text = format!("{}é", "a".repeat(31));
    let field = string_to_u8(&text);
    assert_eq!(field[31], 0xc3);
    assert_eq!(u8_to_string(field), format!("{}\u{fffd}", "a".repeat(31)));
}

#[test]
fn unpack_instructions() {
    assert_eq!(LoverInstruction::unpack(&[]), Err(ProgramError::InvalidInstructionData));
    assert_eq!(LoverInstruction::unpack(&[3]), Err(ProgramError::InvalidInstructionData));
    assert_eq!(LoverInstruction::unpack(&[2]), Ok(LoverInstruction::IncreaseLove));
    assert_eq!(LoverInstruction::unpack(&[2, 5, 6]), Ok(LoverInstruction::IncreaseLove));
    assert_eq!(
        LoverInstruction::unpack(&set_number_data(0x0102030405060708)),
        Ok(LoverInstruction::SetSpecialNumber { new_number: 0x0102030405060708 })
    );
    assert_eq!(LoverInstruction::unpack(&[1, 1, 2, 3, 4, 5, 6, 7]), Err(ProgramError::InvalidInstructionData));
    assert_eq!(LoverInstruction::unpack(&[1, 1, 2, 3, 4, 5, 6, 7, 8, 9]), Err(ProgramError::InvalidInstructionData));
    assert_eq!(LoverInstruction::unpack(&[1]), Err(ProgramError::InvalidInstructionData));
}

#[test]
fn unpack_name_is_padded_or_cut() {
    let mut expected = [0u8; 32];
    expected[..3].copy_from_slice(b"bob");
    assert_eq!(
        LoverInstruction::unpack(&[0, b'b', b'o', b'b']),
        Ok(LoverInstruction::SetName { new_name: expected })
    );
    assert_eq!(LoverInstruction::unpack(&[0]), Ok(LoverInstruction::SetName { new_name: [0u8; 32] }));
    let mut long = vec![0u8];
    long.extend((1..=40).map(|b| b as u8));
    let mut cut = [0u8; 32];
    for i in 0..32 {
        cut[i] = (i + 1) as u8;
    }
    assert_eq!(LoverInstruction::unpack(&long), Ok(LoverInstruction::SetName { new_name: cut }));
}

#[test]
fn new_lover_is_empty() {
    let lover = Lover::new();
    assert_eq!(lover.name, [0u8; 32]);
    assert_eq!(lover.special_numbers, [0u64; 5]);
    assert_eq!(lover.love, 0);
    assert_eq!(lover.count(), 0);
}

#[test]
fn count_stops_at_first_zero() {
    let lover = Lover { name: [0; 32], special_numbers: [4, 8, 0, 15, 0], love: 0 };
    assert_eq!(lover.count(), 2);
    let full = Lover { name: [0; 32], special_numbers: [1, 2, 3, 4, 5], love: 4 };
    assert_eq!(full.count(), 5);
    assert!(lover.is_special(8));
    assert!(!lover.is_special(15));
    assert!(!lover.is_special(0));
}

#[test]
fn already_special_comes_first() {
    // two numbers set, no love: the duplicate is reported, not the lack of love
    let mut lover = Lover { name: [0; 32], special_numbers: [4, 8, 0, 0, 0], love: 0 };
    assert_eq!(lover.try_set_special_number(8), Err(CustomError::AlreadySpecial));
    assert_eq!(lover.try_set_special_number(9), Err(CustomError::NotEnoughLove));
    assert_eq!(lover.special_numbers, [4, 8, 0, 0, 0]);
}

#[test]
fn number_goes_in_the_love_slot() {
    let mut lover = Lover { name: [0; 32], special_numbers: [0; 5], love: 2 };
    assert_eq!(lover.try_set_special_number(11), Ok(()));
    assert_eq!(lover.special_numbers, [0, 0, 11, 0, 0]);
    assert_eq!(lover.count(), 0);
}

#[test]
fn love_is_capped() {
    let mut lover = Lover::new();
    for expected in 1..=4u8 {
        assert_eq!(lover.try_increase_love(), Ok(()));
        assert_eq!(lover.love, expected);
    }
    assert_eq!(lover.try_increase_love(), Err(CustomError::TooMuchLove));
    assert_eq!(lover.love, 4);
}

#[test]
fn account_data_layout() {
    let mut name = [0u8; 32];
    name[0] = b'z';
    let bytes = record(name, [1, 0x0102030405060708, 0, 0, u64::MAX], 3);
    assert_eq!(bytes.len(), ACCOUNT_SPACE);
    assert_eq!(bytes[0], b'z');
    assert_eq!(&bytes[32..40], &[1, 0, 0, 0, 0, 0, 0, 0]);
    assert_eq!(&bytes[40..48], &[8, 7, 6, 5, 4, 3, 2, 1]);
    assert_eq!(&bytes[64..72], &[0xff; 8]);
    assert_eq!(bytes[72], 3);
    let back = Lover::from_account_data(&bytes).unwrap();
    assert_eq!(back, Lover { name, special_numbers: [1, 0x0102030405060708, 0, 0, u64::MAX], love: 3 });
    assert_eq!(back.to_account_data().unwrap(), bytes);
}

#[test]
fn account_data_of_wrong_length() {
    assert_eq!(
        Lover::from_account_data(&[0u8; 72]),
        Err(ProgramError::BorshIoError("Unexpected length of input".to_string()))
    );
    assert_eq!(
        Lover::from_account_data(&[0u8; 74]),
        Err(ProgramError::BorshIoError("Not all bytes read".to_string()))
    );
}

#[test]
fn initialize_needs_three_accounts() {
    let accounts = vec![owned(vec![]), owned(vec![])];
    assert_eq!(process_initialize_account(&accounts, [1; 32]), Err(ProgramError::NotEnoughAccountKeys));
    let accounts = vec![owned(vec![]), owned(vec![]), owned(vec![])];
    match process_initialize_account(&accounts, [1; 32]).unwrap() {
        Effect::CreateAccount { account, payer, system_program, space, data } => {
            assert_eq!((account, payer, system_program), (0, 1, 2));
            assert_eq!(space, ACCOUNT_SPACE as u64);
            assert_eq!(data, record([1; 32], [0; 5], 0));
        }
        other => panic!("expected an account creation, got {:?}", other),
    }
}

#[test]
fn account_checks() {
    let data = record([0; 32], [0; 5], 0);
    assert_eq!(set_special_number(&PROGRAM, &[], 5), Err(ProgramError::NotEnoughAccountKeys));
    assert_eq!(increase_love(&PROGRAM, &[]), Err(ProgramError::NotEnoughAccountKeys));
    let foreign = vec![AccountSnapshot { owner: OTHER, data: data.clone() }];
    assert_eq!(set_special_number(&PROGRAM, &foreign, 5), Err(ProgramError::IncorrectProgramId));
    assert_eq!(increase_love(&PROGRAM, &foreign), Err(ProgramError::IncorrectProgramId));
    let short = vec![owned(data[..70].to_vec())];
    assert_eq!(
        increase_love(&PROGRAM, &short),
        Err(ProgramError::BorshIoError("Unexpected length of input".to_string()))
    );
}

#[test]
fn custom_errors_through_the_program() {
    let accounts = vec![owned(record([0; 32], [5, 0, 0, 0, 0], 0))];
    assert_eq!(
        process_instruction(&PROGRAM, &accounts, &set_number_data(5)),
        Err(ProgramError::Custom(0))
    );
    let accounts = vec![owned(record([0; 32], [5, 0, 0, 0, 0], 4))];
    assert_eq!(process_instruction(&PROGRAM, &accounts, &[2]), Err(ProgramError::Custom(2)));
    assert_eq!(process_instruction(&PROGRAM, &accounts, &[9]), Err(ProgramError::InvalidInstructionData));
}

#[test]
fn custom_error_codes() {
    assert_eq!(CustomError::AlreadySpecial.code(), 0);
    assert_eq!(CustomError::NotEnoughLove.code(), 1);
    assert_eq!(CustomError::TooMuchLove.code(), 2);
    assert_eq!(ProgramError::from(CustomError::TooMuchLove), ProgramError::Custom(2));
}

#[test]
fn love_out_of_range_is_caught_before_processing() {
    let broken = vec![owned(record([0; 32], [0; 5], 5))];
    assert!(instruction_panics(&PROGRAM, &broken, &set_number_data(3)));
    // a number that is already special is refused before the slot is used
    let broken = vec![owned(record([0; 32], [3, 0, 0, 0, 0], 5))];
    assert!(!instruction_panics(&PROGRAM, &broken, &set_number_data(3)));
    assert_eq!(
        process_instruction(&PROGRAM, &broken, &set_number_data(3)),
        Err(ProgramError::Custom(0))
    );
    // records the program writes keep the counter in range
    let fine = vec![owned(record([0; 32], [0; 5], 4))];
    assert!(!instruction_panics(&PROGRAM, &fine, &set_number_data(3)));
}

#[test]
fn record_round_trips_through_borsh_tuple() {
    // the record layout is borsh's layout of its three fields
    let lover = Lover { name: [3; 32], special_numbers: [1, 2, 3, 4, 5], love: 2 };
    let expected = borsh::to_vec(&(lover.name, lover.special_numbers, lover.love)).unwrap();
    assert_eq!(lover.to_account_data().unwrap(), expected);
}
