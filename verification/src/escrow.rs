//! Per-user escrow: a prepaid balance funding bets, with deposit and
//! withdrawal against the escrow's backing lamport store.
//!
//! The backing store is modeled as a plain lamport balance handed in by the
//! caller; every operation either commits all of its transfers and field
//! updates together or fails with a named error and changes nothing.

use vstd::prelude::*;

use crate::WITHDRAWAL_FEE_LAMPORTS;
use crate::errors::ErrorCode;
use crate::state::Pubkey;
use crate::state::UserPlatformEscrow;
use crate::state::pubkey_eq;

verus! {

/// Error a deposit returns, if any: zero amounts are rejected, the caller
/// must own the escrow (a fresh escrow is adopted by its first depositor),
/// the depositor's wallet must cover the amount, and every balance update is
/// checked arithmetic.
pub open spec fn deposit_error(
    escrow: UserPlatformEscrow,
    user: Pubkey,
    amount: u64,
    user_lamports: u64,
    escrow_lamports: u64,
) -> Option<ErrorCode> {
    let owner_ok = escrow.user_authority.is_zeroed() || escrow.user_authority == user;
    let balance_before: int = if escrow.user_authority.is_zeroed() {
        0
    } else {
        escrow.balance as int
    };
    if amount == 0 {
        Some(ErrorCode::InvalidDepositAmount)
    } else if !owner_ok {
        Some(ErrorCode::UnauthorizedAccess)
    } else if user_lamports < amount {
        Some(ErrorCode::InsufficientFunds)
    } else if escrow_lamports + amount > u64::MAX || balance_before + amount > u64::MAX {
        Some(ErrorCode::CalculationError)
    } else {
        None
    }
}

/// Funds the caller's escrow: moves `amount` lamports from the caller's
/// wallet into the escrow's backing store and raises the recorded balance by
/// the same amount. A never-used escrow is initialized to the caller with
/// balance zero first.
pub fn process_deposit_sol(
    user_platform_escrow: &mut UserPlatformEscrow,
    user: &Pubkey,
    amount: u64,
    user_lamports: &mut u64,
    escrow_lamports: &mut u64,
) -> (r: Result<(), ErrorCode>)
    ensures
        match r {
            Ok(()) => {
                &&& deposit_error(
                    *old(user_platform_escrow),
                    *user,
                    amount,
                    *old(user_lamports),
                    *old(escrow_lamports),
                ) is None
                &&& final(user_platform_escrow).user_authority == *user
                &&& final(user_platform_escrow).balance as int == (if old(
                    user_platform_escrow,
                ).user_authority.is_zeroed() {
                    0int
                } else {
                    old(user_platform_escrow).balance as int
                }) + amount
                &&& final(user_platform_escrow).bump == old(user_platform_escrow).bump
                &&& *final(user_lamports) == *old(user_lamports) - amount
                &&& *final(escrow_lamports) == *old(escrow_lamports) + amount
            },
            Err(e) => {
                &&& Some(e) == deposit_error(
                    *old(user_platform_escrow),
                    *user,
                    amount,
                    *old(user_lamports),
                    *old(escrow_lamports),
                )
                &&& *final(user_platform_escrow) == *old(user_platform_escrow)
                &&& *final(user_lamports) == *old(user_lamports)
                &&& *final(escrow_lamports) == *old(escrow_lamports)
            },
        },
{
    if amount == 0 {
        return Err(ErrorCode::InvalidDepositAmount);
    }

    let zero_key = Pubkey::zeroed();
    let is_first_use = pubkey_eq(&user_platform_escrow.user_authority, &zero_key);
    proof {
        crate::state::lemma_eq_zeroed(user_platform_escrow.user_authority, zero_key);
    }

    if !is_first_use && !pubkey_eq(&user_platform_escrow.user_authority, user) {
        return Err(ErrorCode::UnauthorizedAccess);
    }

    if *user_lamports < amount {
        return Err(ErrorCode::InsufficientFunds);
    }

    let balance_before: u64 = if is_first_use {
        0
    } else {
        user_platform_escrow.balance
    };

    let new_escrow_lamports = match escrow_lamports.checked_add(amount) {
        Some(v) => v,
        None => {
            return Err(ErrorCode::CalculationError);
        },
    };
    let new_balance = match balance_before.checked_add(amount) {
        Some(v) => v,
        None => {
            return Err(ErrorCode::CalculationError);
        },
    };

    user_platform_escrow.user_authority = *user;
    user_platform_escrow.balance = new_balance;
    *user_lamports = *user_lamports - amount;
    *escrow_lamports = new_escrow_lamports;
    Ok(())
}

/// Error a withdrawal returns, if any: the caller must own the escrow, zero
/// amounts are rejected, the debit is the amount plus the fixed fee, the
/// recorded balance must cover the debit, and the backing store must keep
/// its platform-mandated reserve after the debit.
pub open spec fn withdraw_error(
    escrow: UserPlatformEscrow,
    user: Pubkey,
    amount_to_withdraw: u64,
    escrow_lamports: u64,
    escrow_rent_reserve: u64,
    user_lamports: u64,
    house_wallet_lamports: u64,
) -> Option<ErrorCode> {
    let total_debit: int = amount_to_withdraw + WITHDRAWAL_FEE_LAMPORTS;
    if escrow.user_authority != user {
        Some(ErrorCode::UnauthorizedEscrowAccess)
    } else if amount_to_withdraw == 0 {
        Some(ErrorCode::InvalidWithdrawalAmount)
    } else if total_debit > u64::MAX {
        Some(ErrorCode::CalculationError)
    } else if (escrow.balance as int) < total_debit {
        Some(ErrorCode::InsufficientPlatformBalance)
    } else if escrow_lamports - total_debit < escrow_rent_reserve {
        Some(ErrorCode::WithdrawWouldMakeEscrowRentDeficient)
    } else if user_lamports + amount_to_withdraw > u64::MAX || house_wallet_lamports
        + WITHDRAWAL_FEE_LAMPORTS > u64::MAX {
        Some(ErrorCode::CalculationError)
    } else {
        None
    }
}

/// Withdraws from the caller's escrow: debits the amount plus the fixed fee
/// from the backing store and the recorded balance, pays the fee to the
/// house wallet and the amount to the caller's wallet. The backing store is
/// never drawn below its platform-mandated reserve.
pub fn process_withdraw_sol_from_platform(
    user_platform_escrow: &mut UserPlatformEscrow,
    user: &Pubkey,
    amount_to_withdraw: u64,
    escrow_lamports: &mut u64,
    escrow_rent_reserve: u64,
    user_lamports: &mut u64,
    house_wallet_lamports: &mut u64,
) -> (r: Result<(), ErrorCode>)
    requires
        old(user_platform_escrow).balance <= *old(escrow_lamports),
    ensures
        match r {
            Ok(()) => {
                &&& withdraw_error(
                    *old(user_platform_escrow),
                    *user,
                    amount_to_withdraw,
                    *old(escrow_lamports),
                    escrow_rent_reserve,
                    *old(user_lamports),
                    *old(house_wallet_lamports),
                ) is None
                &&& final(user_platform_escrow).balance == old(user_platform_escrow).balance
                    - amount_to_withdraw - WITHDRAWAL_FEE_LAMPORTS
                &&& final(user_platform_escrow).user_authority == old(
                    user_platform_escrow,
                ).user_authority
                &&& final(user_platform_escrow).bump == old(user_platform_escrow).bump
                &&& *final(escrow_lamports) == *old(escrow_lamports) - amount_to_withdraw
                    - WITHDRAWAL_FEE_LAMPORTS
                &&& *final(escrow_lamports) >= escrow_rent_reserve
                &&& *final(user_lamports) == *old(user_lamports) + amount_to_withdraw
                &&& *final(house_wallet_lamports) == *old(house_wallet_lamports)
                    + WITHDRAWAL_FEE_LAMPORTS
                &&& final(user_platform_escrow).balance <= *final(escrow_lamports)
            },
            Err(e) => {
                &&& Some(e) == withdraw_error(
                    *old(user_platform_escrow),
                    *user,
                    amount_to_withdraw,
                    *old(escrow_lamports),
                    escrow_rent_reserve,
                    *old(user_lamports),
                    *old(house_wallet_lamports),
                )
                &&& *final(user_platform_escrow) == *old(user_platform_escrow)
                &&& *final(escrow_lamports) == *old(escrow_lamports)
                &&& *final(user_lamports) == *old(user_lamports)
                &&& *final(house_wallet_lamports) == *old(house_wallet_lamports)
            },
        },
{
    if !pubkey_eq(&user_platform_escrow.user_authority, user) {
        return Err(ErrorCode::UnauthorizedEscrowAccess);
    }

    if amount_to_withdraw == 0 {
        return Err(ErrorCode::InvalidWithdrawalAmount);
    }

    let total_debit = match amount_to_withdraw.checked_add(WITHDRAWAL_FEE_LAMPORTS) {
        Some(v) => v,
        None => {
            return Err(ErrorCode::CalculationError);
        },
    };

    if user_platform_escrow.balance < total_debit {
        return Err(ErrorCode::InsufficientPlatformBalance);
    }

    if *escrow_lamports - total_debit < escrow_rent_reserve {
        return Err(ErrorCode::WithdrawWouldMakeEscrowRentDeficient);
    }

    let new_user_lamports = match user_lamports.checked_add(amount_to_withdraw) {
        Some(v) => v,
        None => {
            return Err(ErrorCode::CalculationError);
        },
    };
    let new_house_lamports = match house_wallet_lamports.checked_add(WITHDRAWAL_FEE_LAMPORTS) {
        Some(v) => v,
        None => {
            return Err(ErrorCode::CalculationError);
        },
    };

    *escrow_lamports = *escrow_lamports - total_debit;
    *user_lamports = new_user_lamports;
    *house_wallet_lamports = new_house_lamports;
    user_platform_escrow.balance = user_platform_escrow.balance - total_debit;
    Ok(())
}

} // verus!
