//! What the gateway has from the SPL token library: the check that account
//! data holds a mint, and the builders of the two instructions.

use crate::amount::le_bytes;
use crate::request::{AccountMeta, Instruction, InstructionView};
use solana_program::program_error::ProgramError;
use solana_program::program_pack::Pack;
use solana_program::pubkey::Pubkey;
use spl_token::state::Mint;
use vstd::prelude::*;

verus! {

/// `Mint` of spl-token, the decoded form of a mint account. Nothing is read
/// from a value of it.
#[verifier::external_type_specification]
#[verifier::external_body]
pub struct ExMint(Mint);

/// Address of the SPL token program, `TokenkegQfeZyiNwAJbNbGKPFXCWuBvf9Ss623VQ5DA`
/// in base 58.
pub const TOKEN_PROGRAM_ID: [u8; 32] = [
    6, 221, 246, 225, 215, 101, 161, 147, 217, 203, 225, 70, 206, 235, 121, 172,
    28, 180, 133, 237, 95, 91, 55, 145, 58, 140, 245, 133, 126, 255, 0, 169,
];

/// The bytes of [`TOKEN_PROGRAM_ID`].
pub open spec fn token_program_id() -> Seq<u8> {
    TOKEN_PROGRAM_ID@
}

/// Whether the four bytes of `data` from `at` on mark an optional key as
/// absent (0) or present (1), written as a little-endian 32-bit tag.
pub open spec fn option_tag_at(data: Seq<u8>, at: int) -> bool {
    &&& data[at] == 0 || data[at] == 1
    &&& data[at + 1] == 0
    &&& data[at + 2] == 0
    &&& data[at + 3] == 0
}

/// Whether `data` is the stored form of an initialized mint: 82 bytes, made of
/// the optional mint authority (tag at 0, key at 4), the supply (at 36), the
/// decimals (at 44), the initialized flag (at 45) and the optional freeze
/// authority (tag at 46, key at 50).
pub open spec fn is_initialized_mint(data: Seq<u8>) -> bool {
    &&& data.len() == 82
    &&& option_tag_at(data, 0)
    &&& data[45] == 1
    &&& option_tag_at(data, 46)
}

/// The instruction both builders produce, up to its leading tag byte: two
/// writable accounts, then the authority as the only signer, and the amount
/// in little-endian order behind the tag.
pub open spec fn token_instruction(
    tag: u8,
    token_program: [u8; 32],
    first: [u8; 32],
    destination: [u8; 32],
    authority: [u8; 32],
    amount: u64,
) -> InstructionView {
    InstructionView {
        program_id: token_program,
        accounts: seq![
            (AccountMeta { key: first, is_signer: false, is_writable: true }),
            (AccountMeta { key: destination, is_signer: false, is_writable: true }),
            (AccountMeta { key: authority, is_signer: true, is_writable: false }),
        ],
        data: seq![tag] + le_bytes(amount),
    }
}

/// The `MintTo` instruction: mint `amount` new tokens of `mint` into
/// `destination`, signed by `authority` alone.
pub open spec fn mint_to_instruction(
    token_program: [u8; 32],
    mint: [u8; 32],
    destination: [u8; 32],
    authority: [u8; 32],
    amount: u64,
) -> InstructionView {
    token_instruction(7, token_program, mint, destination, authority, amount)
}

/// The `Transfer` instruction: move `amount` tokens from `source` to
/// `destination`, signed by `authority` alone.
pub open spec fn transfer_instruction(
    token_program: [u8; 32],
    source: [u8; 32],
    destination: [u8; 32],
    authority: [u8; 32],
    amount: u64,
) -> InstructionView {
    token_instruction(3, token_program, source, destination, authority, amount)
}

/// Calls `Mint::unpack` of spl-token on `data`.
///
/// Trusted: the call succeeds exactly on the stored form of an initialized
/// mint, as [`is_initialized_mint`] describes it. spl-token refuses any
/// other length, any other tag of an optional key, any flag but 0 and 1, and
/// a mint whose flag is 0.
#[verifier::external_body]
pub(crate) fn unpack_mint(data: &[u8]) -> (r: Result<Mint, ProgramError>)
    ensures
        r is Ok <==> is_initialized_mint(data@),
{
    Mint::unpack(data)
}

/// Calls `spl_token::instruction::mint_to` with no multisignature signers.
///
/// Trusted: the call succeeds exactly when `token_program` is the address of
/// the SPL token program, and the instruction it then returns is
/// [`mint_to_instruction`] of the arguments.
#[verifier::external_body]
pub(crate) fn build_mint_to(
    token_program: &[u8; 32],
    mint: &[u8; 32],
    destination: &[u8; 32],
    authority: &[u8; 32],
    amount: u64,
) -> (r: Result<Instruction, ProgramError>)
    ensures
        r is Ok <==> token_program@ == token_program_id(),
        r matches Ok(ix) ==> ix@ == mint_to_instruction(
            *token_program,
            *mint,
            *destination,
            *authority,
            amount,
        ),
{
    let built = spl_token::instruction::mint_to(
        &Pubkey::new_from_array(*token_program),
        &Pubkey::new_from_array(*mint),
        &Pubkey::new_from_array(*destination),
        &Pubkey::new_from_array(*authority),
        &[],
        amount,
    )?;
    let accounts = built.accounts.iter().map(|m| AccountMeta {
        key: m.pubkey.to_bytes(),
        is_signer: m.is_signer,
        is_writable: m.is_writable,
    }).collect();
    Ok(Instruction { program_id: built.program_id.to_bytes(), accounts, data: built.data })
}

/// Calls `spl_token::instruction::transfer` with no multisignature signers.
///
/// Trusted: the call succeeds exactly when `token_program` is the address of
/// the SPL token program, and the instruction it then returns is
/// [`transfer_instruction`] of the arguments.
#[verifier::external_body]
pub(crate) fn build_transfer(
    token_program: &[u8; 32],
    source: &[u8; 32],
    destination: &[u8; 32],
    authority: &[u8; 32],
    amount: u64,
) -> (r: Result<Instruction, ProgramError>)
    ensures
        r is Ok <==> token_program@ == token_program_id(),
        r matches Ok(ix) ==> ix@ == transfer_instruction(
            *token_program,
            *source,
            *destination,
            *authority,
            amount,
        ),
{
    let built = spl_token::instruction::transfer(
        &Pubkey::new_from_array(*token_program),
        &Pubkey::new_from_array(*source),
        &Pubkey::new_from_array(*destination),
        &Pubkey::new_from_array(*authority),
        &[],
        amount,
    )?;
    let accounts = built.accounts.iter().map(|m| AccountMeta {
        key: m.pubkey.to_bytes(),
        is_signer: m.is_signer,
        is_writable: m.is_writable,
    }).collect();
    Ok(Instruction { program_id: built.program_id.to_bytes(), accounts, data: built.data })
}

} // verus!
