//! A token gateway: it reads one instruction (an opcode byte and a 64-bit
//! amount), names the four accounts the operation needs, and prepares the
//! matching `mint_to` or `transfer` request for the SPL token program.
//!
//! Everything here works on plain values. The caller hands in the keys and
//! data of the accounts it was given and receives the request to issue.

pub mod account;
pub mod amount;
pub mod dispatch;
pub mod error;
pub mod request;
pub mod token;
