//! Reading the exchange contract's answer about an order.
use vstd::prelude::*;

verus! {

/// The standing of an order on the exchange contract.
#[derive(Debug, Clone, Copy, PartialEq, Eq, Structural)]
pub enum OrderStatus {
    Open,
    Filled,
    Cancelled,
    Invalid,
}

/// Why the contract gave no definitive answer.
#[derive(Debug, Clone, Copy, PartialEq, Eq, Structural)]
pub enum ChainError {
    /// The RPC call failed or timed out.
    ChainUnavailable,
}

/// What the contract reports for an order: whether it was validated or
/// cancelled, and how much of it was filled out of its total size.
#[derive(Debug, Clone, Copy, PartialEq, Eq, Structural)]
pub struct OnChainStatus {
    pub is_validated: bool,
    pub is_cancelled: bool,
    pub total_filled: u128,
    pub total_size: u128,
}

/// The status of an order ending at `end_time`, at time `now`, from the
/// contract's report: cancellation first, then a complete fill, then expiry.
pub open spec fn status_of(reply: OnChainStatus, end_time: u64, now: u64) -> OrderStatus {
    if reply.is_cancelled {
        OrderStatus::Cancelled
    } else if reply.total_size > 0 && reply.total_filled >= reply.total_size {
        OrderStatus::Filled
    } else if now >= end_time {
        OrderStatus::Invalid
    } else {
        OrderStatus::Open
    }
}

/// Turns the result of the status call (`None` when the call failed) into
/// the order's status, keeping a failed call apart from a definitive
/// `Invalid`.
pub fn order_status(reply: Option<OnChainStatus>, end_time: u64, now: u64) -> (r: Result<OrderStatus, ChainError>)
    ensures
        r == (match reply {
            Some(x) => Ok::<OrderStatus, ChainError>(status_of(x, end_time, now)),
            None => Err::<OrderStatus, ChainError>(ChainError::ChainUnavailable),
        }),
{
    match reply {
        None => Err(ChainError::ChainUnavailable),
        Some(x) => {
            if x.is_cancelled {
                Ok(OrderStatus::Cancelled)
            } else if x.total_size > 0 && x.total_filled >= x.total_size {
                Ok(OrderStatus::Filled)
            } else if now >= end_time {
                Ok(OrderStatus::Invalid)
            } else {
                Ok(OrderStatus::Open)
            }
        },
    }
}

} // verus!
