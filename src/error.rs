//! The ways a call can be refused.

use vstd::prelude::*;

verus! {

/// Why a call was refused; a refused call changes nothing.
#[derive(Clone, Copy, Debug, PartialEq, Eq, Structural)]
pub enum ContractError {
    Unauthorized,
    TooManyDenoms,
    TooSmall,
    SameToken,
    NoAskTokens,
    TooManyGiveTokens,
    WrongDenom,
    NotFound,
    Expired,
    Stopped,
    /// Every offer id is taken.
    NoFreeId,
}

} // verus!
