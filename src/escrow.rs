//! User escrow: a pre-funded balance that lets a relayer submit
//! pre-authorised requests on the user's behalf.
use vstd::prelude::*;

use crate::error::TimlgError;
use crate::pubkey::Pubkey;
use crate::state::UserEscrow;

verus! {

/// Creates a user's escrow record at `slot`.
pub fn init_user_escrow(user: &Pubkey, current_slot: u64) -> (r: UserEscrow)
    ensures
        r == (UserEscrow { user: *user, created_slot: current_slot, updated_slot: current_slot }),
{
    UserEscrow { user: *user, created_slot: current_slot, updated_slot: current_slot }
}

/// Decides a deposit of `amount` into the escrow: returns the amount to
/// move from the user into the escrow's balance.
pub fn deposit_escrow(escrow: &mut UserEscrow, amount: u64, current_slot: u64) -> (r: Result<u64, TimlgError>)
    ensures
        amount == 0 ==> r == Err::<u64, TimlgError>(TimlgError::InvalidStakeAmount) && *final(escrow)
            == *old(escrow),
        amount != 0 ==> r == Ok::<u64, TimlgError>(amount) && *final(escrow) == (UserEscrow {
            updated_slot: current_slot,
            ..*old(escrow)
        }),
{
    if amount == 0 {
        return Err(TimlgError::InvalidStakeAmount);
    }
    escrow.updated_slot = current_slot;
    Ok(amount)
}

/// Decides a withdrawal of `amount` from the escrow by its owner: returns
/// the amount to move from the escrow's balance back to the user.
pub fn withdraw_escrow(escrow: &mut UserEscrow, user: &Pubkey, amount: u64, current_slot: u64) -> (r: Result<u64, TimlgError>)
    ensures
        amount == 0 ==> r == Err::<u64, TimlgError>(TimlgError::InvalidStakeAmount) && *final(escrow)
            == *old(escrow),
        amount != 0 && old(escrow).user@ != user@ ==> r == Err::<u64, TimlgError>(
            TimlgError::Unauthorized,
        ) && *final(escrow) == *old(escrow),
        amount != 0 && old(escrow).user@ == user@ ==> r == Ok::<u64, TimlgError>(amount)
            && *final(escrow) == (UserEscrow { updated_slot: current_slot, ..*old(escrow) }),
{
    if amount == 0 {
        return Err(TimlgError::InvalidStakeAmount);
    }
    if !(escrow.user == *user) {
        return Err(TimlgError::Unauthorized);
    }
    escrow.updated_slot = current_slot;
    Ok(amount)
}

} // verus!
