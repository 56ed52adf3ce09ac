//! Who is calling, and the checks that admit a caller to an operation.
use vstd::prelude::*;

use crate::address::Address;
use crate::error::CsprUSDError;

verus! {

/// One frame of the host's call stack, with the address that it acts for.
#[derive(Clone, Debug)]
pub enum CallerFrame {
    /// Session code of an account.
    Session { account: Address },
    /// Stored session code, which acts in the context of the calling account.
    StoredSession { account: Address },
    /// A stored contract, identified by its package.
    StoredContract { package: Address },
}

impl CallerFrame {
    pub open spec fn spec_address(self) -> Seq<u8> {
        match self {
            CallerFrame::Session { account } => account@,
            CallerFrame::StoredSession { account } => account@,
            CallerFrame::StoredContract { package } => package@,
        }
    }
}

/// The address a frame acts for: the account for session code, stored or
/// not, and the package for a stored contract.
pub fn call_stack_element_to_address(frame: &CallerFrame) -> (r: Address)
    ensures
        r@ == frame.spec_address(),
{
    match frame {
        CallerFrame::Session { account } => account.duplicate(),
        CallerFrame::StoredSession { account } => account.duplicate(),
        CallerFrame::StoredContract { package } => package.duplicate(),
    }
}

/// The address of the immediate caller of the running contract: the frame
/// below the top of the stack, where there is one.
pub open spec fn caller_of(stack: Seq<CallerFrame>) -> Option<Seq<u8>> {
    if stack.len() >= 2 {
        Some(stack[stack.len() - 2].spec_address())
    } else {
        None
    }
}

/// The immediate caller, so that a contract in the middle of a call chain
/// acts for itself and no contract acts for the accounts that called it.
pub fn get_immediate_caller_address(stack: &Vec<CallerFrame>) -> (r: Result<Address, CsprUSDError>)
    ensures
        r is Ok <==> caller_of(stack@) is Some,
        r is Ok ==> Some(r->Ok_0@) == caller_of(stack@),
        r is Err ==> r == Err::<Address, CsprUSDError>(CsprUSDError::InvalidContext),
{
    let n = stack.len();
    if n >= 2 {
        Ok(call_stack_element_to_address(&stack[n - 2]))
    } else {
        Err(CsprUSDError::InvalidContext)
    }
}

/// Refusal unless the caller is `role`: with `InvalidContext` where the
/// caller cannot be told, else with `refusal` where it is someone else.
pub open spec fn role_check(stack: Seq<CallerFrame>, role: Seq<u8>, refusal: CsprUSDError) -> Option<
    CsprUSDError,
> {
    match caller_of(stack) {
        None => Some(CsprUSDError::InvalidContext),
        Some(c) => if c == role {
            None
        } else {
            Some(refusal)
        },
    }
}

/// The unit result of a check that refuses with `e`, or passes on `None`.
pub open spec fn check_result(e: Option<CsprUSDError>) -> Result<(), CsprUSDError> {
    match e {
        Some(e) => Err(e),
        None => Ok(()),
    }
}

fn require_role(stack: &Vec<CallerFrame>, role: &Address, refusal: CsprUSDError) -> (r: Result<
    (),
    CsprUSDError,
>)
    ensures
        r == check_result(role_check(stack@, role@, refusal)),
{
    let caller = get_immediate_caller_address(stack)?;
    if caller.same(role) {
        Ok(())
    } else {
        Err(refusal)
    }
}

/// Admits the pauser alone.
pub fn only_pauser(stack: &Vec<CallerFrame>, pauser: &Address) -> (r: Result<(), CsprUSDError>)
    ensures
        r == check_result(role_check(stack@, pauser@, CsprUSDError::NotPauser)),
{
    require_role(stack, pauser, CsprUSDError::NotPauser)
}

/// Admits the owner alone.
pub fn only_owner(stack: &Vec<CallerFrame>, owner: &Address) -> (r: Result<(), CsprUSDError>)
    ensures
        r == check_result(role_check(stack@, owner@, CsprUSDError::NotOwner)),
{
    require_role(stack, owner, CsprUSDError::NotOwner)
}

/// Admits the master minter alone.
pub fn only_master_minter(stack: &Vec<CallerFrame>, master_minter: &Address) -> (r: Result<
    (),
    CsprUSDError,
>)
    ensures
        r == check_result(role_check(stack@, master_minter@, CsprUSDError::NotMasterMinter)),
{
    require_role(stack, master_minter, CsprUSDError::NotMasterMinter)
}

/// Admits the blacklister alone, known by the address of its account.
pub fn only_blacklister(stack: &Vec<CallerFrame>, blacklister: &Address) -> (r: Result<
    (),
    CsprUSDError,
>)
    ensures
        r == check_result(role_check(stack@, blacklister@, CsprUSDError::NotBlacklister)),
{
    require_role(stack, blacklister, CsprUSDError::NotBlacklister)
}

/// Admits an account that is a minter.
pub fn only_minters(is_minter: bool) -> (r: Result<(), CsprUSDError>)
    ensures
        r == (if is_minter {
            Ok(())
        } else {
            Err(CsprUSDError::NotMinter)
        }),
{
    if is_minter {
        Ok(())
    } else {
        Err(CsprUSDError::NotMinter)
    }
}

/// Refuses while the contract is paused.
pub fn when_not_paused(paused: bool) -> (r: Result<(), CsprUSDError>)
    ensures
        r == (if paused {
            Err(CsprUSDError::ContractPaused)
        } else {
            Ok(())
        }),
{
    if paused {
        Err(CsprUSDError::ContractPaused)
    } else {
        Ok(())
    }
}

} // verus!
