//! The events that successful operations announce.
use vstd::prelude::*;

use crate::address::Address;
use crate::amount::Amount;

verus! {

#[derive(Clone, Debug, PartialEq, Eq)]
pub struct Mint {
    pub minter: Address,
    pub recipient: Address,
    pub amount: Amount,
}

#[derive(Clone, Debug, PartialEq, Eq)]
pub struct Burn {
    pub minter: Address,
    pub amount: Amount,
}

#[derive(Clone, Debug, PartialEq, Eq)]
pub struct Pause {}

#[derive(Clone, Debug, PartialEq, Eq)]
pub struct Unpause {}

#[derive(Clone, Debug, PartialEq, Eq)]
pub struct NewPauser {
    pub new_pauser: Address,
}

#[derive(Clone, Debug, PartialEq, Eq)]
pub struct Blacklisted {
    pub key: Address,
}

#[derive(Clone, Debug, PartialEq, Eq)]
pub struct UnBlacklisted {
    pub key: Address,
}

/// The new blacklister, by the address of its account.
#[derive(Clone, Debug, PartialEq, Eq)]
pub struct BlacklisterChanged {
    pub new_blacklister: Address,
}

#[derive(Clone, Debug, PartialEq, Eq)]
pub struct MasterMinterChanged {
    pub new_master_minter: Address,
}

#[derive(Clone, Debug, PartialEq, Eq)]
pub struct OwnershipTransferred {
    pub new_owner: Address,
}

#[derive(Clone, Debug, PartialEq, Eq)]
pub struct MinterConfigured {
    pub minter: Address,
    pub minter_allowance: Amount,
}

#[derive(Clone, Debug, PartialEq, Eq)]
pub struct MinterRemoved {
    pub minter: Address,
}

#[derive(Clone, Debug, PartialEq, Eq)]
pub struct SetAllowance {
    pub owner: Address,
    pub spender: Address,
    pub allowance: Amount,
}

#[derive(Clone, Debug, PartialEq, Eq)]
pub struct IncreaseAllowance {
    pub owner: Address,
    pub spender: Address,
    pub allowance: Amount,
    pub inc_by: Amount,
}

#[derive(Clone, Debug, PartialEq, Eq)]
pub struct DecreaseAllowance {
    pub owner: Address,
    pub spender: Address,
    pub allowance: Amount,
    pub decr_by: Amount,
}

#[derive(Clone, Debug, PartialEq, Eq)]
pub struct Transfer {
    pub sender: Address,
    pub recipient: Address,
    pub amount: Amount,
}

#[derive(Clone, Debug, PartialEq, Eq)]
pub struct TransferFrom {
    pub spender: Address,
    pub owner: Address,
    pub recipient: Address,
    pub amount: Amount,
}

/// Any of the events above.
#[derive(Clone, Debug, PartialEq, Eq)]
pub enum Event {
    Mint(Mint),
    Burn(Burn),
    Pause(Pause),
    Unpause(Unpause),
    PauserChanged(NewPauser),
    MasterMinterChanged(MasterMinterChanged),
    Blacklisted(Blacklisted),
    UnBlacklisted(UnBlacklisted),
    BlacklisterChanged(BlacklisterChanged),
    OwnershipTransferred(OwnershipTransferred),
    MinterConfigured(MinterConfigured),
    MinterRemoved(MinterRemoved),
    SetAllowance(SetAllowance),
    IncreaseAllowance(IncreaseAllowance),
    DecreaseAllowance(DecreaseAllowance),
    Transfer(Transfer),
    TransferFrom(TransferFrom),
}

} // verus!
