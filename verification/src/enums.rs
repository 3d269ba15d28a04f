//! FIX-style enumerations shared by order-management code.

use vstd::prelude::*;

verus! {

/// Order side.
#[derive(Clone, Copy, Debug, PartialEq, Eq, Structural)]
pub enum Side {
    Buy,
    Sell,
}

/// Order type.
#[derive(Clone, Copy, Debug, PartialEq, Eq, Structural)]
pub enum OrdType {
    Market,
    Limit,
}

/// Time in force for orders.
#[derive(Clone, Copy, Debug, PartialEq, Eq, Structural)]
pub enum TimeInForce {
    Day,
    Ioc,
    Fok,
    Gtc,
}

/// Order status (FIX 39).
#[derive(Clone, Copy, Debug, PartialEq, Eq, Structural)]
pub enum OrdStatus {
    PendingNew,
    New,
    PartiallyFilled,
    Filled,
    PendingCancel,
    Canceled,
    Rejected,
}

/// Execution type (FIX 150).
#[derive(Clone, Copy, Debug, PartialEq, Eq, Structural)]
pub enum ExecType {
    PendingNew,
    New,
    PartialFill,
    Fill,
    PendingCancel,
    Canceled,
    Rejected,
    Replaced,
}

/// Result of a pre-trade risk check.
#[derive(Clone, Copy, Debug, PartialEq, Eq, Structural)]
pub enum RiskCheckResult {
    Pass,
    Fail,
}

/// Liquidity role for a fill.
#[derive(Clone, Copy, Debug, PartialEq, Eq, Structural)]
pub enum LiquidityRole {
    Maker,
    Taker,
}

} // verus!
