//! The request that a call leads to: one instruction for the token program
//! and the supplied accounts to pass along with it.

use vstd::prelude::*;

verus! {

/// How an instruction refers to one account.
#[derive(Debug, Clone, Copy, PartialEq, Eq)]
pub struct AccountMeta {
    /// The account's address.
    pub key: [u8; 32],
    /// Whether the account must have signed.
    pub is_signer: bool,
    /// Whether the callee may change the account.
    pub is_writable: bool,
}

/// An instruction addressed to a program.
#[derive(Debug, PartialEq, Eq)]
pub struct Instruction {
    /// Address of the program that is to run it.
    pub program_id: [u8; 32],
    /// The accounts it refers to, in the order the program expects.
    pub accounts: Vec<AccountMeta>,
    /// The bytes the program reads.
    pub data: Vec<u8>,
}

/// An [`Instruction`] as a mathematical value.
#[verifier::ext_equal]
pub struct InstructionView {
    pub program_id: [u8; 32],
    pub accounts: Seq<AccountMeta>,
    pub data: Seq<u8>,
}

impl View for Instruction {
    type V = InstructionView;

    open spec fn view(&self) -> InstructionView {
        InstructionView {
            program_id: self.program_id,
            accounts: self.accounts@,
            data: self.data@,
        }
    }
}

/// A cross-program call to make: the instruction, and the positions in the
/// supplied account list of the accounts that go with it.
#[derive(Debug, PartialEq, Eq)]
pub struct Invocation {
    /// The instruction to hand to the token program.
    pub instruction: Instruction,
    /// Positions of the accounts to pass, in the order to pass them.
    pub accounts: Vec<usize>,
}

/// An [`Invocation`] as a mathematical value.
#[verifier::ext_equal]
pub struct InvocationView {
    pub instruction: InstructionView,
    pub accounts: Seq<usize>,
}

impl View for Invocation {
    type V = InvocationView;

    open spec fn view(&self) -> InvocationView {
        InvocationView { instruction: self.instruction@, accounts: self.accounts@ }
    }
}

} // verus!
