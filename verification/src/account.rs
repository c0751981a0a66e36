//! The accounts a call is given, and the cursor that hands them out in order.

use crate::error::DispatchError;
use vstd::prelude::*;

verus! {

/// One supplied account, as far as the gateway reads it. It borrows the key
/// and the data for the length of a call.
#[derive(Debug, Clone, Copy, PartialEq, Eq)]
pub struct Account<'a> {
    /// The account's address.
    pub key: &'a [u8; 32],
    /// The bytes stored in the account.
    pub data: &'a [u8],
}

/// Hands out the account under the cursor and moves the cursor past it. At
/// the end of the list it refuses and leaves the cursor where it was.
pub fn next_account<'a>(accounts: &[Account<'a>], cursor: &mut usize) -> (r: Result<
    Account<'a>,
    DispatchError,
>)
    ensures
        *old(cursor) < accounts@.len() ==> r == Ok::<Account, DispatchError>(
            accounts@[*old(cursor) as int],
        ) && *final(cursor) == *old(cursor) + 1,
        *old(cursor) >= accounts@.len() ==> r == Err::<Account, DispatchError>(
            DispatchError::NotEnoughAccountKeys,
        ) && *final(cursor) == *old(cursor),
{
    if *cursor < accounts.len() {
        let account = accounts[*cursor];
        *cursor = *cursor + 1;
        Ok(account)
    } else {
        Err(DispatchError::NotEnoughAccountKeys)
    }
}

} // verus!
