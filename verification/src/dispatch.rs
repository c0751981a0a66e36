//! The dispatcher: it routes an instruction by its opcode to the handler that
//! prepares the request.

use crate::account::{next_account, Account};
use crate::amount::{decode_amount, le_value};
use crate::error::{DispatchError, ErrorKind};
use crate::request::{Invocation, InvocationView};
use crate::token::{
    build_mint_to, build_transfer, is_initialized_mint, mint_to_instruction, token_program_id,
    transfer_instruction, unpack_mint,
};
use solana_program::program_error::ProgramError;
use vstd::prelude::*;
use vstd::slice::slice_subrange;

verus! {

/// Opcode of the mint operation.
pub const OP_MINT: u8 = 0;

/// Opcode of the transfer operation.
pub const OP_TRANSFER: u8 = 1;

/// Whether `instruction_data` begins with the opcode of an operation.
pub open spec fn names_operation(instruction_data: Seq<u8>) -> bool {
    instruction_data.len() > 0 && (instruction_data[0] == OP_MINT || instruction_data[0]
        == OP_TRANSFER)
}

/// First byte of the token program's instruction for the operation that
/// `opcode` names.
pub open spec fn token_tag(opcode: u8) -> u8 {
    if opcode == OP_MINT {
        7
    } else {
        3
    }
}

/// A handler's result as a mathematical value: the request as it is, an error
/// by its kind.
pub open spec fn outcome(r: Result<Invocation, DispatchError>) -> Result<
    InvocationView,
    ErrorKind,
> {
    match r {
        Ok(invocation) => Ok(invocation@),
        Err(e) => Err(e.spec_kind()),
    }
}

/// The accounts that go with either request: the first four supplied, in the
/// order they were supplied.
pub open spec fn passed_accounts() -> Seq<usize> {
    seq![0usize, 1, 2, 3]
}

/// What a mint call leads to. The accounts are taken as mint, destination,
/// authority and token program, in that order.
pub open spec fn mint_outcome(accounts: Seq<Account>, payload: Seq<u8>) -> Result<
    InvocationView,
    ErrorKind,
> {
    if accounts.len() < 4 {
        Err(ErrorKind::NotEnoughAccountKeys)
    } else if payload.len() < 8 {
        Err(ErrorKind::InvalidInstructionData)
    } else if !is_initialized_mint(accounts[0].data@) {
        Err(ErrorKind::MalformedMint)
    } else if accounts[3].key@ != token_program_id() {
        Err(ErrorKind::Delegated)
    } else {
        Ok(
            InvocationView {
                instruction: mint_to_instruction(
                    *accounts[3].key,
                    *accounts[0].key,
                    *accounts[1].key,
                    *accounts[2].key,
                    le_value(payload) as u64,
                ),
                accounts: passed_accounts(),
            },
        )
    }
}

/// What a transfer call leads to. The accounts are taken as source,
/// destination, authority and token program, in that order.
pub open spec fn transfer_outcome(accounts: Seq<Account>, payload: Seq<u8>) -> Result<
    InvocationView,
    ErrorKind,
> {
    if accounts.len() < 4 {
        Err(ErrorKind::NotEnoughAccountKeys)
    } else if payload.len() < 8 {
        Err(ErrorKind::InvalidInstructionData)
    } else if accounts[3].key@ != token_program_id() {
        Err(ErrorKind::Delegated)
    } else {
        Ok(
            InvocationView {
                instruction: transfer_instruction(
                    *accounts[3].key,
                    *accounts[0].key,
                    *accounts[1].key,
                    *accounts[2].key,
                    le_value(payload) as u64,
                ),
                accounts: passed_accounts(),
            },
        )
    }
}

/// What an instruction leads to: its first byte chooses the operation, the
/// bytes after it are the operation's payload.
pub open spec fn dispatch_outcome(accounts: Seq<Account>, instruction_data: Seq<u8>) -> Result<
    InvocationView,
    ErrorKind,
> {
    if instruction_data.len() == 0 {
        Err(ErrorKind::InvalidInstructionData)
    } else if instruction_data[0] == OP_MINT {
        mint_outcome(accounts, instruction_data.subrange(1, instruction_data.len() as int))
    } else if instruction_data[0] == OP_TRANSFER {
        transfer_outcome(accounts, instruction_data.subrange(1, instruction_data.len() as int))
    } else {
        Err(ErrorKind::InvalidInstructionData)
    }
}

/// Prepares the minting of tokens.
///
/// Takes the first four accounts as mint, destination, authority and token
/// program, reads the amount off the front of `payload`, checks that the mint
/// account holds an initialized mint, and builds the `MintTo` instruction
/// with the authority as its only signer. The request names the four
/// accounts, in the order they were supplied, as the ones to pass along.
///
/// The steps fail in that order: with fewer than four accounts the call is
/// refused whatever the payload holds, and a payload too short for an amount
/// is refused before the mint account is looked at. Nothing is prepared
/// unless every step succeeds.
pub fn mint_token(_program_id: &[u8; 32], accounts: &[Account], payload: &[u8]) -> (r: Result<
    Invocation,
    DispatchError,
>)
    ensures
        outcome(r) == mint_outcome(accounts@, payload@),
        accounts@.len() < 4 ==> r == Err::<Invocation, _>(DispatchError::NotEnoughAccountKeys),
        accounts@.len() >= 4 && payload@.len() < 8 ==> r == Err::<Invocation, _>(
            DispatchError::InvalidInstructionData,
        ),
        accounts@.len() >= 1 && !is_initialized_mint(accounts@[0].data@) ==> r is Err,
        r matches Ok(invocation) ==> invocation.instruction.data@ == seq![7u8] + payload@.subrange(
            0,
            8,
        ),
{
    let mut cursor: usize = 0;
    let mint = next_account(accounts, &mut cursor)?;
    let destination = next_account(accounts, &mut cursor)?;
    let authority = next_account(accounts, &mut cursor)?;
    let token_program = next_account(accounts, &mut cursor)?;
    let amount: u64 = decode_amount(payload)?;
    // Only that the data decodes matters; the decoded mint is not read.
    let _mint_state = match unpack_mint(mint.data) {
        Ok(state) => state,
        Err(e) => return Err(DispatchError::MalformedMint(e)),
    };
    let instruction = match build_mint_to(
        token_program.key,
        mint.key,
        destination.key,
        authority.key,
        amount,
    ) {
        Ok(instruction) => instruction,
        Err(e) => return Err(DispatchError::Delegated(e)),
    };
    Ok(Invocation { instruction, accounts: vec![0, 1, 2, 3] })
}

/// Prepares the transfer of tokens.
///
/// Takes the first four accounts as source, destination, authority and token
/// program, reads the amount off the front of `payload`, and builds the
/// `Transfer` instruction with the authority as its only signer. The request
/// names the four accounts, in the order they were supplied, as the ones to
/// pass along.
///
/// The steps fail in that order: with fewer than four accounts the call is
/// refused whatever the payload holds.
pub fn transfer_token(_program_id: &[u8; 32], accounts: &[Account], payload: &[u8]) -> (r: Result<
    Invocation,
    DispatchError,
>)
    ensures
        outcome(r) == transfer_outcome(accounts@, payload@),
        accounts@.len() < 4 ==> r == Err::<Invocation, _>(DispatchError::NotEnoughAccountKeys),
        accounts@.len() >= 4 && payload@.len() < 8 ==> r == Err::<Invocation, _>(
            DispatchError::InvalidInstructionData,
        ),
        r matches Ok(invocation) ==> invocation.instruction.data@ == seq![3u8] + payload@.subrange(
            0,
            8,
        ),
{
    let mut cursor: usize = 0;
    let source = next_account(accounts, &mut cursor)?;
    let destination = next_account(accounts, &mut cursor)?;
    let authority = next_account(accounts, &mut cursor)?;
    let token_program = next_account(accounts, &mut cursor)?;
    let amount: u64 = decode_amount(payload)?;
    let instruction = match build_transfer(
        token_program.key,
        source.key,
        destination.key,
        authority.key,
        amount,
    ) {
        Ok(instruction) => instruction,
        Err(e) => return Err(DispatchError::Delegated(e)),
    };
    Ok(Invocation { instruction, accounts: vec![0, 1, 2, 3] })
}

/// Routes one instruction: the first byte of `instruction_data` is the
/// opcode, the rest is handed to the handler it names. Empty data and any
/// opcode but [`OP_MINT`] and [`OP_TRANSFER`] are refused. `program_id` is
/// handed on and decides nothing.
pub fn process_instruction(
    program_id: &[u8; 32],
    accounts: &[Account],
    instruction_data: &[u8],
) -> (r: Result<Invocation, DispatchError>)
    ensures
        outcome(r) == dispatch_outcome(accounts@, instruction_data@),
        instruction_data@.len() == 0 ==> r == Err::<Invocation, _>(
            DispatchError::InvalidInstructionData,
        ),
        instruction_data@.len() > 0 && !names_operation(instruction_data@) ==> r == Err::<
            Invocation,
            _,
        >(DispatchError::InvalidInstructionData),
        names_operation(instruction_data@) && accounts@.len() < 4 ==> r == Err::<Invocation, _>(
            DispatchError::NotEnoughAccountKeys,
        ),
        names_operation(instruction_data@) && accounts@.len() >= 4 && instruction_data@.len() < 9
            ==> r == Err::<Invocation, _>(DispatchError::InvalidInstructionData),
        instruction_data@.len() > 0 && instruction_data@[0] == OP_MINT && accounts@.len() >= 1
            && !is_initialized_mint(accounts@[0].data@) ==> r is Err,
        r matches Ok(invocation) ==> invocation.instruction.data@ == seq![
            token_tag(instruction_data@[0]),
        ] + instruction_data@.subrange(1, 9),
{
    if instruction_data.len() == 0 {
        return Err(DispatchError::InvalidInstructionData);
    }
    let opcode: u8 = instruction_data[0];
    let rest = slice_subrange(instruction_data, 1, instruction_data.len());
    assert(rest@.len() >= 8 ==> rest@.subrange(0, 8) == instruction_data@.subrange(1, 9));
    if opcode == OP_MINT {
        mint_token(program_id, accounts, rest)
    } else if opcode == OP_TRANSFER {
        transfer_token(program_id, accounts, rest)
    } else {
        Err(DispatchError::InvalidInstructionData)
    }
}

/// Closes a call once its request has been issued: the call succeeds exactly
/// when the token program accepted the request, and a refusal is handed on
/// with the token program's error unchanged.
pub fn conclude(issued: Result<(), ProgramError>) -> (r: Result<(), DispatchError>)
    ensures
        issued is Ok <==> r is Ok,
        issued matches Err(e) ==> r == Err::<(), _>(DispatchError::Delegated(e)),
{
    match issued {
        Ok(()) => Ok(()),
        Err(e) => Err(DispatchError::Delegated(e)),
    }
}

/// Bytes after the ninth have no part in what an instruction leads to.
pub proof fn lemma_instruction_tail_ignored(accounts: Seq<Account>, instruction_data: Seq<u8>)
    requires
        instruction_data.len() >= 9,
    ensures
        dispatch_outcome(accounts, instruction_data) == dispatch_outcome(
            accounts,
            instruction_data.subrange(0, 9),
        ),
{
    let long = instruction_data.subrange(1, instruction_data.len() as int);
    let short = instruction_data.subrange(0, 9).subrange(1, 9);
    assert(le_value(long) == le_value(short));
}

} // verus!
