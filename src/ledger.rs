//! Balances and allowances: transfers, approvals, minting and burning.
//!
//! Each operation takes the values that it reads from storage and returns the
//! values to be written back, with the event to announce, or the error with
//! which the first failing check refuses it.
use vstd::prelude::*;

use crate::access::{caller_of, get_immediate_caller_address, only_minters, when_not_paused, CallerFrame};
use crate::address::Address;
use crate::amount::{amount_bound, Amount};
use crate::error::{refused_with, CsprUSDError};
use crate::events::{
    Burn, DecreaseAllowance, IncreaseAllowance, Mint, SetAllowance, Transfer, TransferFrom,
};

verus! {

/// New balances of the two sides of a transfer.
#[derive(Clone, Copy, Debug, PartialEq, Eq)]
pub struct BalanceUpdate {
    pub from_balance: Amount,
    pub to_balance: Amount,
}

/// Why moving `amount` between two balances fails, if it does.
pub open spec fn transfer_balance_refusal(from_balance: nat, to_balance: nat, amount: nat) -> Option<
    CsprUSDError,
> {
    if amount == 0 {
        Some(CsprUSDError::CannotTransferZeroAmount)
    } else if from_balance < amount {
        Some(CsprUSDError::InsufficientBalance)
    } else if to_balance + amount >= amount_bound() {
        Some(CsprUSDError::Overflow)
    } else {
        None
    }
}

/// Moves `amount` from one balance to another, of two distinct holders.
pub fn transfer_balance(from_balance: Amount, to_balance: Amount, amount: Amount) -> (r: Result<
    BalanceUpdate,
    CsprUSDError,
>)
    ensures
        refused_with(r, transfer_balance_refusal(from_balance.value(), to_balance.value(), amount.value())),
        r is Ok ==> r->Ok_0.from_balance.value() == from_balance.value() - amount.value()
            && r->Ok_0.to_balance.value() == to_balance.value() + amount.value(),
{
    if amount.is_zero() {
        return Err(CsprUSDError::CannotTransferZeroAmount);
    }
    let from_new = match from_balance.checked_sub(&amount) {
        Some(b) => b,
        None => return Err(CsprUSDError::InsufficientBalance),
    };
    let to_new = match to_balance.checked_add(&amount) {
        Some(b) => b,
        None => return Err(CsprUSDError::Overflow),
    };
    Ok(BalanceUpdate { from_balance: from_new, to_balance: to_new })
}

/// What a transfer writes and announces.
#[derive(Clone, Debug, PartialEq, Eq)]
pub struct TransferEffect {
    pub balances: BalanceUpdate,
    pub event: Transfer,
}

pub open spec fn transfer_refusal(
    paused: bool,
    stack: Seq<CallerFrame>,
    recipient: Seq<u8>,
    sender_blacklisted: bool,
    recipient_blacklisted: bool,
    sender_balance: nat,
    recipient_balance: nat,
    amount: nat,
) -> Option<CsprUSDError> {
    if paused {
        Some(CsprUSDError::ContractPaused)
    } else if caller_of(stack) is None {
        Some(CsprUSDError::InvalidContext)
    } else if sender_blacklisted || recipient_blacklisted {
        Some(CsprUSDError::BlackListedAccount)
    } else if caller_of(stack)->Some_0 == recipient {
        Some(CsprUSDError::CannotTargetSelfUser)
    } else {
        transfer_balance_refusal(sender_balance, recipient_balance, amount)
    }
}

/// The caller sends `amount` of its own tokens to `recipient`.
/// `sender_blacklisted` and `sender_balance` are those of the caller.
pub fn transfer(
    paused: bool,
    stack: &Vec<CallerFrame>,
    recipient: &Address,
    sender_blacklisted: bool,
    recipient_blacklisted: bool,
    sender_balance: Amount,
    recipient_balance: Amount,
    amount: Amount,
) -> (r: Result<TransferEffect, CsprUSDError>)
    ensures
        refused_with(
            r,
            transfer_refusal(
                paused,
                stack@,
                recipient@,
                sender_blacklisted,
                recipient_blacklisted,
                sender_balance.value(),
                recipient_balance.value(),
                amount.value(),
            ),
        ),
        r is Ok ==> {
            let e = r->Ok_0;
            &&& e.balances.from_balance.value() == sender_balance.value() - amount.value()
            &&& e.balances.to_balance.value() == recipient_balance.value() + amount.value()
            &&& Some(e.event.sender@) == caller_of(stack@)
            &&& e.event.recipient@ == recipient@
            &&& e.event.amount == amount
        },
{
    when_not_paused(paused)?;
    let sender = get_immediate_caller_address(stack)?;
    if sender_blacklisted || recipient_blacklisted {
        return Err(CsprUSDError::BlackListedAccount);
    }
    if sender.same(recipient) {
        return Err(CsprUSDError::CannotTargetSelfUser);
    }
    let balances = transfer_balance(sender_balance, recipient_balance, amount)?;
    Ok(TransferEffect {
        balances,
        event: Transfer { sender, recipient: recipient.duplicate(), amount },
    })
}

/// What a delegated transfer writes and announces.
#[derive(Clone, Debug, PartialEq, Eq)]
pub struct TransferFromEffect {
    pub balances: BalanceUpdate,
    /// What remains of the allowance that the owner gave the caller.
    pub allowance: Amount,
    pub event: TransferFrom,
}

pub open spec fn transfer_from_refusal(
    paused: bool,
    stack: Seq<CallerFrame>,
    owner: Seq<u8>,
    recipient: Seq<u8>,
    spender_blacklisted: bool,
    recipient_blacklisted: bool,
    owner_blacklisted: bool,
    allowance: nat,
    owner_balance: nat,
    recipient_balance: nat,
    amount: nat,
) -> Option<CsprUSDError> {
    if paused {
        Some(CsprUSDError::ContractPaused)
    } else if caller_of(stack) is None {
        Some(CsprUSDError::InvalidContext)
    } else if spender_blacklisted || recipient_blacklisted || owner_blacklisted {
        Some(CsprUSDError::BlackListedAccount)
    } else if owner == recipient {
        Some(CsprUSDError::CannotTargetSelfUser)
    } else if allowance < amount {
        Some(CsprUSDError::InsufficientAllowance)
    } else {
        transfer_balance_refusal(owner_balance, recipient_balance, amount)
    }
}

/// The caller, as spender, moves `amount` of `owner`'s tokens to `recipient`
/// out of the allowance that `owner` gave it. `spender_blacklisted` is that
/// of the caller, `allowance` the one that `owner` gave the caller.
pub fn transfer_from(
    paused: bool,
    stack: &Vec<CallerFrame>,
    owner: &Address,
    recipient: &Address,
    spender_blacklisted: bool,
    recipient_blacklisted: bool,
    owner_blacklisted: bool,
    allowance: Amount,
    owner_balance: Amount,
    recipient_balance: Amount,
    amount: Amount,
) -> (r: Result<TransferFromEffect, CsprUSDError>)
    ensures
        refused_with(
            r,
            transfer_from_refusal(
                paused,
                stack@,
                owner@,
                recipient@,
                spender_blacklisted,
                recipient_blacklisted,
                owner_blacklisted,
                allowance.value(),
                owner_balance.value(),
                recipient_balance.value(),
                amount.value(),
            ),
        ),
        r is Ok ==> {
            let e = r->Ok_0;
            &&& e.balances.from_balance.value() == owner_balance.value() - amount.value()
            &&& e.balances.to_balance.value() == recipient_balance.value() + amount.value()
            &&& e.allowance.value() == allowance.value() - amount.value()
            &&& Some(e.event.spender@) == caller_of(stack@)
            &&& e.event.owner@ == owner@
            &&& e.event.recipient@ == recipient@
            &&& e.event.amount == amount
        },
{
    when_not_paused(paused)?;
    let spender = get_immediate_caller_address(stack)?;
    if spender_blacklisted || recipient_blacklisted || owner_blacklisted {
        return Err(CsprUSDError::BlackListedAccount);
    }
    if owner.same(recipient) {
        return Err(CsprUSDError::CannotTargetSelfUser);
    }
    if allowance.less_than(&amount) {
        return Err(CsprUSDError::InsufficientAllowance);
    }
    let balances = transfer_balance(owner_balance, recipient_balance, amount)?;
    let remaining = match allowance.checked_sub(&amount) {
        Some(a) => a,
        None => return Err(CsprUSDError::InsufficientAllowance),
    };
    Ok(TransferFromEffect {
        balances,
        allowance: remaining,
        event: TransferFrom {
            spender,
            owner: owner.duplicate(),
            recipient: recipient.duplicate(),
            amount,
        },
    })
}

/// Why the caller may not change the allowance it gives `spender`, if so.
/// `owner_blacklisted` is that of the caller.
pub open spec fn allowance_change_refusal(
    paused: bool,
    stack: Seq<CallerFrame>,
    spender: Seq<u8>,
    owner_blacklisted: bool,
    spender_blacklisted: bool,
) -> Option<CsprUSDError> {
    if paused {
        Some(CsprUSDError::ContractPaused)
    } else if caller_of(stack) is None {
        Some(CsprUSDError::InvalidContext)
    } else if caller_of(stack)->Some_0 == spender {
        Some(CsprUSDError::CannotTargetSelfUser)
    } else if owner_blacklisted || spender_blacklisted {
        Some(CsprUSDError::BlackListedAccount)
    } else {
        None
    }
}

fn check_allowance_change(
    paused: bool,
    stack: &Vec<CallerFrame>,
    spender: &Address,
    owner_blacklisted: bool,
    spender_blacklisted: bool,
) -> (r: Result<Address, CsprUSDError>)
    ensures
        refused_with(
            r,
            allowance_change_refusal(paused, stack@, spender@, owner_blacklisted, spender_blacklisted),
        ),
        r is Ok ==> Some(r->Ok_0@) == caller_of(stack@),
{
    when_not_paused(paused)?;
    let owner = get_immediate_caller_address(stack)?;
    if spender.same(&owner) {
        return Err(CsprUSDError::CannotTargetSelfUser);
    }
    if owner_blacklisted || spender_blacklisted {
        return Err(CsprUSDError::BlackListedAccount);
    }
    Ok(owner)
}

/// The caller sets the allowance it gives `spender` to `amount`; the event
/// carries the allowance to be written.
pub fn approve(
    paused: bool,
    stack: &Vec<CallerFrame>,
    spender: &Address,
    owner_blacklisted: bool,
    spender_blacklisted: bool,
    amount: Amount,
) -> (r: Result<SetAllowance, CsprUSDError>)
    ensures
        refused_with(
            r,
            allowance_change_refusal(paused, stack@, spender@, owner_blacklisted, spender_blacklisted),
        ),
        r is Ok ==> {
            let e = r->Ok_0;
            &&& Some(e.owner@) == caller_of(stack@)
            &&& e.spender@ == spender@
            &&& e.allowance == amount
        },
{
    let owner = check_allowance_change(paused, stack, spender, owner_blacklisted, spender_blacklisted)?;
    Ok(SetAllowance { owner, spender: spender.duplicate(), allowance: amount })
}

/// The caller raises the allowance it gives `spender` by `amount`, up to the
/// largest amount; the event carries the allowance to be written.
pub fn increase_allowance(
    paused: bool,
    stack: &Vec<CallerFrame>,
    spender: &Address,
    owner_blacklisted: bool,
    spender_blacklisted: bool,
    current_allowance: Amount,
    amount: Amount,
) -> (r: Result<IncreaseAllowance, CsprUSDError>)
    ensures
        refused_with(
            r,
            allowance_change_refusal(paused, stack@, spender@, owner_blacklisted, spender_blacklisted),
        ),
        r is Ok ==> {
            let e = r->Ok_0;
            &&& Some(e.owner@) == caller_of(stack@)
            &&& e.spender@ == spender@
            &&& e.allowance.value() == if current_allowance.value() + amount.value() < amount_bound() {
                current_allowance.value() + amount.value()
            } else {
                (amount_bound() - 1) as nat
            }
            &&& e.inc_by == amount
        },
{
    let owner = check_allowance_change(paused, stack, spender, owner_blacklisted, spender_blacklisted)?;
    let allowance = current_allowance.saturating_add(&amount);
    Ok(IncreaseAllowance { owner, spender: spender.duplicate(), allowance, inc_by: amount })
}

/// The caller lowers the allowance it gives `spender` by `amount`, down to
/// zero; the event carries the allowance to be written.
pub fn decrease_allowance(
    paused: bool,
    stack: &Vec<CallerFrame>,
    spender: &Address,
    owner_blacklisted: bool,
    spender_blacklisted: bool,
    current_allowance: Amount,
    amount: Amount,
) -> (r: Result<DecreaseAllowance, CsprUSDError>)
    ensures
        refused_with(
            r,
            allowance_change_refusal(paused, stack@, spender@, owner_blacklisted, spender_blacklisted),
        ),
        r is Ok ==> {
            let e = r->Ok_0;
            &&& Some(e.owner@) == caller_of(stack@)
            &&& e.spender@ == spender@
            &&& e.allowance.value() == if amount.value() <= current_allowance.value() {
                (current_allowance.value() - amount.value()) as nat
            } else {
                0
            }
            &&& e.decr_by == amount
        },
{
    let owner = check_allowance_change(paused, stack, spender, owner_blacklisted, spender_blacklisted)?;
    let allowance = current_allowance.saturating_sub(&amount);
    Ok(DecreaseAllowance { owner, spender: spender.duplicate(), allowance, decr_by: amount })
}

/// What a mint writes and announces.
#[derive(Clone, Debug, PartialEq, Eq)]
pub struct MintEffect {
    pub recipient_balance: Amount,
    /// What remains of the minter's mint allowance.
    pub minter_allowance: Amount,
    pub total_supply: Amount,
    pub event: Mint,
}

pub open spec fn mint_refusal(
    paused: bool,
    stack: Seq<CallerFrame>,
    minter_is_minter: bool,
    minter_blacklisted: bool,
    recipient_blacklisted: bool,
    amount: nat,
    minter_allowance: nat,
    recipient_balance: nat,
    total_supply: nat,
) -> Option<CsprUSDError> {
    if paused {
        Some(CsprUSDError::ContractPaused)
    } else if caller_of(stack) is None {
        Some(CsprUSDError::InvalidContext)
    } else if !minter_is_minter {
        Some(CsprUSDError::NotMinter)
    } else if minter_blacklisted || recipient_blacklisted {
        Some(CsprUSDError::BlackListedAccount)
    } else if amount == 0 {
        Some(CsprUSDError::CannotMintZeroAmount)
    } else if minter_allowance < amount {
        Some(CsprUSDError::ExceedsMintAllowance)
    } else if recipient_balance + amount >= amount_bound() {
        Some(CsprUSDError::Overflow)
    } else if total_supply + amount >= amount_bound() {
        Some(CsprUSDError::Overflow)
    } else {
        None
    }
}

/// The caller, a minter, creates `amount` new tokens for `recipient` out of
/// its mint allowance. `minter_is_minter`, `minter_blacklisted` and
/// `minter_allowance` are those of the caller.
pub fn mint(
    paused: bool,
    stack: &Vec<CallerFrame>,
    recipient: &Address,
    minter_is_minter: bool,
    minter_blacklisted: bool,
    recipient_blacklisted: bool,
    amount: Amount,
    minter_allowance: Amount,
    recipient_balance: Amount,
    total_supply: Amount,
) -> (r: Result<MintEffect, CsprUSDError>)
    ensures
        refused_with(
            r,
            mint_refusal(
                paused,
                stack@,
                minter_is_minter,
                minter_blacklisted,
                recipient_blacklisted,
                amount.value(),
                minter_allowance.value(),
                recipient_balance.value(),
                total_supply.value(),
            ),
        ),
        r is Ok ==> {
            let e = r->Ok_0;
            &&& e.recipient_balance.value() == recipient_balance.value() + amount.value()
            &&& e.minter_allowance.value() == minter_allowance.value() - amount.value()
            &&& e.total_supply.value() == total_supply.value() + amount.value()
            &&& Some(e.event.minter@) == caller_of(stack@)
            &&& e.event.recipient@ == recipient@
            &&& e.event.amount == amount
        },
{
    when_not_paused(paused)?;
    let minter = get_immediate_caller_address(stack)?;
    only_minters(minter_is_minter)?;
    if minter_blacklisted || recipient_blacklisted {
        return Err(CsprUSDError::BlackListedAccount);
    }
    if amount.is_zero() {
        return Err(CsprUSDError::CannotMintZeroAmount);
    }
    if minter_allowance.less_than(&amount) {
        return Err(CsprUSDError::ExceedsMintAllowance);
    }
    let new_balance = match recipient_balance.checked_add(&amount) {
        Some(b) => b,
        None => return Err(CsprUSDError::Overflow),
    };
    let new_allowance = match minter_allowance.checked_sub(&amount) {
        Some(a) => a,
        None => return Err(CsprUSDError::ExceedsMintAllowance),
    };
    let new_supply = match total_supply.checked_add(&amount) {
        Some(s) => s,
        None => return Err(CsprUSDError::Overflow),
    };
    Ok(MintEffect {
        recipient_balance: new_balance,
        minter_allowance: new_allowance,
        total_supply: new_supply,
        event: Mint { minter, recipient: recipient.duplicate(), amount },
    })
}

/// What a burn writes and announces.
#[derive(Clone, Debug, PartialEq, Eq)]
pub struct BurnEffect {
    pub minter_balance: Amount,
    pub total_supply: Amount,
    pub event: Burn,
}

pub open spec fn burn_refusal(
    paused: bool,
    stack: Seq<CallerFrame>,
    minter_is_minter: bool,
    minter_blacklisted: bool,
    amount: nat,
    minter_balance: nat,
    total_supply: nat,
) -> Option<CsprUSDError> {
    if paused {
        Some(CsprUSDError::ContractPaused)
    } else if caller_of(stack) is None {
        Some(CsprUSDError::InvalidContext)
    } else if !minter_is_minter {
        Some(CsprUSDError::NotMinter)
    } else if minter_blacklisted {
        Some(CsprUSDError::BlackListedAccount)
    } else if amount == 0 {
        Some(CsprUSDError::CannotBurnZeroAmount)
    } else if minter_balance < amount {
        Some(CsprUSDError::BurnExceedsBalance)
    } else if total_supply < amount {
        Some(CsprUSDError::Overflow)
    } else {
        None
    }
}

/// The caller, a minter, destroys `amount` of its own tokens. The other
/// arguments but the total supply are those of the caller.
pub fn burn(
    paused: bool,
    stack: &Vec<CallerFrame>,
    minter_is_minter: bool,
    minter_blacklisted: bool,
    amount: Amount,
    minter_balance: Amount,
    total_supply: Amount,
) -> (r: Result<BurnEffect, CsprUSDError>)
    ensures
        refused_with(
            r,
            burn_refusal(
                paused,
                stack@,
                minter_is_minter,
                minter_blacklisted,
                amount.value(),
                minter_balance.value(),
                total_supply.value(),
            ),
        ),
        r is Ok ==> {
            let e = r->Ok_0;
            &&& e.minter_balance.value() == minter_balance.value() - amount.value()
            &&& e.total_supply.value() == total_supply.value() - amount.value()
            &&& Some(e.event.minter@) == caller_of(stack@)
            &&& e.event.amount == amount
        },
{
    when_not_paused(paused)?;
    let minter = get_immediate_caller_address(stack)?;
    only_minters(minter_is_minter)?;
    if minter_blacklisted {
        return Err(CsprUSDError::BlackListedAccount);
    }
    if amount.is_zero() {
        return Err(CsprUSDError::CannotBurnZeroAmount);
    }
    if minter_balance.less_than(&amount) {
        return Err(CsprUSDError::BurnExceedsBalance);
    }
    let new_supply = match total_supply.checked_sub(&amount) {
        Some(s) => s,
        None => return Err(CsprUSDError::Overflow),
    };
    let new_balance = match minter_balance.checked_sub(&amount) {
        Some(b) => b,
        None => return Err(CsprUSDError::InsufficientBalance),
    };
    Ok(BurnEffect {
        minter_balance: new_balance,
        total_supply: new_supply,
        event: Burn { minter, amount },
    })
}

} // verus!
