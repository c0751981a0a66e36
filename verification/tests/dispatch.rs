use solana_program::program_error::ProgramError;
use token_dispatch::account::Account;
use token_dispatch::dispatch::{conclude, process_instruction, OP_MINT, OP_TRANSFER};
use token_dispatch::error::{DispatchError, ErrorKind};
use token_dispatch::request::AccountMeta;

const PROGRAM: [u8; 32] = [9u8; 32];

const MINT_KEY: [u8; 32] = [1u8; 32];
const DESTINATION_KEY: [u8; 32] = [2u8; 32];
const AUTHORITY_KEY: [u8; 32] = [3u8; 32];
const TOKEN_PROGRAM: [u8; 32] = spl_token::ID.to_bytes();
const INITIALIZED_MINT: [u8; 82] = {
    let mut data = [0u8; 82];
    data[45] = 1;
    data
};

fn token_program() -> [u8; 32] {
    spl_token::id().to_bytes()
}

fn four_accounts() -> Vec<Account<'static>> {
    vec![
        Account { key: &MINT_KEY, data: &INITIALIZED_MINT },
        Account { key: &DESTINATION_KEY, data: &[] },
        Account { key: &AUTHORITY_KEY, data: &[] },
        Account { key: &TOKEN_PROGRAM, data: &[] },
    ]
}

fn instruction(opcode: u8, amount: u64) -> Vec<u8> {
    let mut data = vec![opcode];
    data.extend_from_slice(&amount.to_le_bytes());
    data
}

#[test]
fn opcodes_are_zero_and_one() {
    assert_eq!(OP_MINT, 0);
    assert_eq!(OP_TRANSFER, 1);
}

#[test]
fn empty_instruction_is_refused() {
    assert_eq!(
        process_instruction(&PROGRAM, &four_accounts(), &[]),
        Err(DispatchError::InvalidInstructionData)
    );
    assert_eq!(
        process_instruction(&PROGRAM, &[], &[]),
        Err(DispatchError::InvalidInstructionData)
    );
}

#[test]
fn every_unknown_opcode_is_refused() {
    for opcode in 2..=255u8 {
        assert_eq!(
            process_instruction(&PROGRAM, &four_accounts(), &instruction(opcode, 500)),
            Err(DispatchError::InvalidInstructionData)
        );
        assert_eq!(
            process_instruction(&PROGRAM, &[], &[opcode]),
            Err(DispatchError::InvalidInstructionData)
        );
    }
}

#[test]
fn too_few_accounts_are_refused() {
    for opcode in [OP_MINT, OP_TRANSFER] {
        for supplied in 0..4usize {
            let accounts = &four_accounts()[..supplied];
            assert_eq!(
                process_instruction(&PROGRAM, accounts, &instruction(opcode, 500)),
                Err(DispatchError::NotEnoughAccountKeys)
            );
        }
    }
}

#[test]
fn too_few_accounts_come_before_a_short_payload() {
    for opcode in [OP_MINT, OP_TRANSFER] {
        assert_eq!(
            process_instruction(&PROGRAM, &[], &[opcode]),
            Err(DispatchError::NotEnoughAccountKeys)
        );
        assert_eq!(
            process_instruction(&PROGRAM, &four_accounts()[..3], &[opcode, 1, 2]),
            Err(DispatchError::NotEnoughAccountKeys)
        );
    }
}

#[test]
fn short_payload_is_refused() {
    for opcode in [OP_MINT, OP_TRANSFER] {
        for total in 1..9usize {
            let data = &instruction(opcode, u64::MAX)[..total];
            assert_eq!(
                process_instruction(&PROGRAM, &four_accounts(), data),
                Err(DispatchError::InvalidInstructionData)
            );
        }
    }
}

#[test]
fn nine_bytes_are_enough() {
    for opcode in [OP_MINT, OP_TRANSFER] {
        assert!(process_instruction(&PROGRAM, &four_accounts(), &instruction(opcode, 0)).is_ok());
    }
}

#[test]
fn opcode_zero_mints() {
    let invocation =
        process_instruction(&PROGRAM, &four_accounts(), &instruction(0, 1_000_000)).unwrap();
    assert_eq!(invocation.instruction.data, vec![7, 0x40, 0x42, 0x0f, 0, 0, 0, 0, 0]);
}

#[test]
fn opcode_one_transfers() {
    let invocation =
        process_instruction(&PROGRAM, &four_accounts(), &instruction(1, 500)).unwrap();
    assert_eq!(invocation.instruction.data, vec![3, 0xf4, 0x01, 0, 0, 0, 0, 0, 0]);
}

#[test]
fn mint_call_issues_one_mint_to_request() {
    let invocation =
        process_instruction(&PROGRAM, &four_accounts(), &instruction(0, 1_000_000)).unwrap();
    assert_eq!(invocation.instruction.program_id, token_program());
    assert_eq!(
        invocation.instruction.accounts,
        vec![
            AccountMeta { key: [1u8; 32], is_signer: false, is_writable: true },
            AccountMeta { key: [2u8; 32], is_signer: false, is_writable: true },
            AccountMeta { key: [3u8; 32], is_signer: true, is_writable: false },
        ]
    );
    assert_eq!(invocation.instruction.data[0], 7);
    assert_eq!(invocation.instruction.data[1..], 1_000_000u64.to_le_bytes());
    assert_eq!(invocation.accounts, vec![0, 1, 2, 3]);
    assert_eq!(conclude(Ok(())), Ok(()));
}

#[test]
fn transfer_call_issues_one_transfer_request() {
    let invocation =
        process_instruction(&PROGRAM, &four_accounts(), &instruction(1, 500)).unwrap();
    assert_eq!(invocation.instruction.program_id, token_program());
    assert_eq!(
        invocation.instruction.accounts,
        vec![
            AccountMeta { key: [1u8; 32], is_signer: false, is_writable: true },
            AccountMeta { key: [2u8; 32], is_signer: false, is_writable: true },
            AccountMeta { key: [3u8; 32], is_signer: true, is_writable: false },
        ]
    );
    assert_eq!(invocation.instruction.data[0], 3);
    assert_eq!(invocation.instruction.data[1..], 500u64.to_le_bytes());
    assert_eq!(invocation.accounts, vec![0, 1, 2, 3]);
    assert_eq!(conclude(Ok(())), Ok(()));
}

#[test]
fn amount_reaches_the_request_unchanged() {
    for opcode in [OP_MINT, OP_TRANSFER] {
        for amount in [0u64, 1, 0x0102_0304_0506_0708, u64::MAX] {
            let invocation =
                process_instruction(&PROGRAM, &four_accounts(), &instruction(opcode, amount))
                    .unwrap();
            assert_eq!(invocation.instruction.data[1..], amount.to_le_bytes());
        }
    }
}

#[test]
fn bytes_after_the_amount_are_ignored() {
    for opcode in [OP_MINT, OP_TRANSFER] {
        let plain = instruction(opcode, 77);
        let mut padded = plain.clone();
        padded.extend_from_slice(&[0xaa, 0xbb, 0xcc]);
        assert_eq!(
            process_instruction(&PROGRAM, &four_accounts(), &padded),
            process_instruction(&PROGRAM, &four_accounts(), &plain)
        );
    }
}

#[test]
fn accounts_after_the_fourth_are_ignored() {
    let mut accounts = four_accounts();
    accounts.push(Account { key: &[5u8; 32], data: &[1, 2, 3] });
    accounts.push(Account { key: &[6u8; 32], data: &[] });
    for opcode in [OP_MINT, OP_TRANSFER] {
        assert_eq!(
            process_instruction(&PROGRAM, &accounts, &instruction(opcode, 12)),
            process_instruction(&PROGRAM, &four_accounts(), &instruction(opcode, 12))
        );
    }
}

#[test]
fn program_identity_plays_no_part() {
    for opcode in [OP_MINT, OP_TRANSFER] {
        assert_eq!(
            process_instruction(&[0u8; 32], &four_accounts(), &instruction(opcode, 12)),
            process_instruction(&[0xffu8; 32], &four_accounts(), &instruction(opcode, 12))
        );
    }
}

#[test]
fn unparsable_mint_fails_the_mint_call() {
    let mut accounts = four_accounts();
    accounts[0].data = &[0u8; 10];
    assert_eq!(
        process_instruction(&PROGRAM, &accounts, &instruction(0, 1_000_000)),
        Err(DispatchError::MalformedMint(ProgramError::InvalidAccountData))
    );
}

#[test]
fn transfer_does_not_read_the_first_account() {
    let mut accounts = four_accounts();
    accounts[0].data = &[0u8; 10];
    assert!(process_instruction(&PROGRAM, &accounts, &instruction(1, 500)).is_ok());
}

#[test]
fn conclude_hands_a_refusal_on_unchanged() {
    assert_eq!(
        conclude(Err(ProgramError::InsufficientFunds)),
        Err(DispatchError::Delegated(ProgramError::InsufficientFunds))
    );
    assert_eq!(
        conclude(Err(ProgramError::Custom(17))),
        Err(DispatchError::Delegated(ProgramError::Custom(17)))
    );
}

#[test]
fn conclude_succeeds_when_the_request_did() {
    assert_eq!(conclude(Ok(())), Ok(()));
}

#[test]
fn each_error_has_its_kind() {
    assert_eq!(
        DispatchError::InvalidInstructionData.kind(),
        ErrorKind::InvalidInstructionData
    );
    assert_eq!(DispatchError::NotEnoughAccountKeys.kind(), ErrorKind::NotEnoughAccountKeys);
    assert_eq!(
        DispatchError::MalformedMint(ProgramError::InvalidAccountData).kind(),
        ErrorKind::MalformedMint
    );
    assert_eq!(
        DispatchError::Delegated(ProgramError::IncorrectProgramId).kind(),
        ErrorKind::Delegated
    );
}
