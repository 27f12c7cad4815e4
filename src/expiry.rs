//! When an offer stops being open: never, at a block height, or at a time.

use vstd::prelude::*;

verus! {

/// The moment after which an offer can no longer be taken.
#[derive(Clone, Copy, Debug, PartialEq, Eq, Structural)]
pub enum Expiry {
    /// Expired once the block height reaches this value.
    AtHeight(u64),
    /// Expired once the block time, in nanoseconds since the epoch, reaches this value.
    AtTime(u64),
    /// Never expires.
    Never,
}

/// The logical clock of the current call: block height and block time in
/// nanoseconds since the epoch.
#[derive(Clone, Copy, Debug, PartialEq, Eq, Structural)]
pub struct Block {
    pub height: u64,
    pub time: u64,
}

/// Whether `expires` is reached at `block`.
pub open spec fn expired(expires: Expiry, block: Block) -> bool {
    match expires {
        Expiry::AtHeight(h) => block.height >= h,
        Expiry::AtTime(t) => block.time >= t,
        Expiry::Never => false,
    }
}

/// Relies on cw_utils's `Expiration::is_expired`, which compares the block
/// height (or time) with the expiration: reached at or after it, never for `Never`.
#[verifier::external_body]
pub(crate) fn expiration_reached(expires: Expiry, block: Block) -> (r: bool)
    ensures
        r == expired(expires, block),
{
    let expiration = match expires {
        Expiry::AtHeight(h) => cw_utils::Expiration::AtHeight(h),
        Expiry::AtTime(t) => cw_utils::Expiration::AtTime(cosmwasm_std::Timestamp::from_nanos(t)),
        Expiry::Never => cw_utils::Expiration::Never {},
    };
    let info = cosmwasm_std::BlockInfo {
        height: block.height,
        time: cosmwasm_std::Timestamp::from_nanos(block.time),
        chain_id: String::new(),
    };
    expiration.is_expired(&info)
}

} // verus!
