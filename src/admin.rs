//! Pausing, the administrative roles, and the configuration of minters.
use vstd::prelude::*;

use crate::access::{
    only_master_minter, only_owner, only_pauser, role_check, when_not_paused, CallerFrame,
};
use crate::address::Address;
use crate::amount::Amount;
use crate::error::{refused_with, CsprUSDError};
use crate::events::{
    BlacklisterChanged, MasterMinterChanged, MinterConfigured, MinterRemoved, NewPauser,
    OwnershipTransferred, Pause, Unpause,
};

verus! {

/// The pauser pauses the contract; on success the paused flag is to be set.
pub fn pause_contract(stack: &Vec<CallerFrame>, pauser: &Address) -> (r: Result<Pause, CsprUSDError>)
    ensures
        refused_with(r, role_check(stack@, pauser@, CsprUSDError::NotPauser)),
{
    only_pauser(stack, pauser)?;
    Ok(Pause {  })
}

/// The pauser unpauses the contract; on success the paused flag is to be
/// cleared.
pub fn unpause_contract(stack: &Vec<CallerFrame>, pauser: &Address) -> (r: Result<
    Unpause,
    CsprUSDError,
>)
    ensures
        refused_with(r, role_check(stack@, pauser@, CsprUSDError::NotPauser)),
{
    only_pauser(stack, pauser)?;
    Ok(Unpause {  })
}

/// The owner names a new pauser, which the event carries.
pub fn update_pauser(stack: &Vec<CallerFrame>, owner: &Address, new_pauser: &Address) -> (r: Result<
    NewPauser,
    CsprUSDError,
>)
    ensures
        refused_with(r, role_check(stack@, owner@, CsprUSDError::NotOwner)),
        r is Ok ==> r->Ok_0.new_pauser@ == new_pauser@,
{
    only_owner(stack, owner)?;
    Ok(NewPauser { new_pauser: new_pauser.duplicate() })
}

/// The owner names a new master minter, which the event carries.
pub fn update_master_minter(
    stack: &Vec<CallerFrame>,
    owner: &Address,
    new_master_minter: &Address,
) -> (r: Result<MasterMinterChanged, CsprUSDError>)
    ensures
        refused_with(r, role_check(stack@, owner@, CsprUSDError::NotOwner)),
        r is Ok ==> r->Ok_0.new_master_minter@ == new_master_minter@,
{
    only_owner(stack, owner)?;
    Ok(MasterMinterChanged { new_master_minter: new_master_minter.duplicate() })
}

/// The owner names a new blacklister, by the address of its account, which
/// the event carries.
pub fn update_blacklister(
    stack: &Vec<CallerFrame>,
    owner: &Address,
    new_blacklister: &Address,
) -> (r: Result<BlacklisterChanged, CsprUSDError>)
    ensures
        refused_with(r, role_check(stack@, owner@, CsprUSDError::NotOwner)),
        r is Ok ==> r->Ok_0.new_blacklister@ == new_blacklister@,
{
    only_owner(stack, owner)?;
    Ok(BlacklisterChanged { new_blacklister: new_blacklister.duplicate() })
}

/// The owner hands the contract to a new owner, which the event carries.
pub fn transfer_ownership(stack: &Vec<CallerFrame>, owner: &Address, new_owner: &Address) -> (r:
    Result<OwnershipTransferred, CsprUSDError>)
    ensures
        refused_with(r, role_check(stack@, owner@, CsprUSDError::NotOwner)),
        r is Ok ==> r->Ok_0.new_owner@ == new_owner@,
{
    only_owner(stack, owner)?;
    Ok(OwnershipTransferred { new_owner: new_owner.duplicate() })
}

pub open spec fn configure_minter_refusal(
    paused: bool,
    stack: Seq<CallerFrame>,
    master_minter: Seq<u8>,
) -> Option<CsprUSDError> {
    if paused {
        Some(CsprUSDError::ContractPaused)
    } else {
        role_check(stack, master_minter, CsprUSDError::NotMasterMinter)
    }
}

/// The master minter makes `minter` a minter with the given mint allowance;
/// the event carries both, to be written.
pub fn configure_minter(
    paused: bool,
    stack: &Vec<CallerFrame>,
    master_minter: &Address,
    minter: &Address,
    minter_allowance: Amount,
) -> (r: Result<MinterConfigured, CsprUSDError>)
    ensures
        refused_with(r, configure_minter_refusal(paused, stack@, master_minter@)),
        r is Ok ==> r->Ok_0.minter@ == minter@ && r->Ok_0.minter_allowance == minter_allowance,
{
    when_not_paused(paused)?;
    only_master_minter(stack, master_minter)?;
    Ok(MinterConfigured { minter: minter.duplicate(), minter_allowance })
}

/// The master minter takes the minter role from `minter`; on success it is to
/// be recorded as no minter, with a mint allowance of zero.
pub fn remove_minter(stack: &Vec<CallerFrame>, master_minter: &Address, minter: &Address) -> (r:
    Result<MinterRemoved, CsprUSDError>)
    ensures
        refused_with(r, role_check(stack@, master_minter@, CsprUSDError::NotMasterMinter)),
        r is Ok ==> r->Ok_0.minter@ == minter@,
{
    only_master_minter(stack, master_minter)?;
    Ok(MinterRemoved { minter: minter.duplicate() })
}

} // verus!
