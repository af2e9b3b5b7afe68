use vstd::prelude::*;

use crate::wire::{k_buy, k_buy_v, k_sell, k_sell_v};
use crate::text::bytes_eq;

verus! {

/// The side of an order or book level.
#[derive(Clone, Copy, Debug, PartialEq, Eq, Structural)]
pub enum Side {
    Buy,
    Sell,
}

/// The side of an open position.
#[derive(Clone, Copy, Debug, PartialEq, Eq, Structural)]
pub enum PositionSide {
    Long,
    Short,
}

/// How a fill came about, as the fills feed reports it.
#[derive(Clone, Copy, Debug, PartialEq, Eq, Structural)]
pub enum FillType {
    Maker,
    Taker,
    Liquidation,
    Assignee,
    Assignor,
    TakerAfterEdit,
}

/// The order types the exchange accepts.
#[derive(Clone, Copy, Debug, PartialEq, Eq, Structural)]
pub enum OrderType {
    Lmt,
    Post,
    Stp,
    TakeProfit,
    IOC,
}

/// Every answer the exchange gives to an order placement.
#[derive(Clone, Copy, Debug, PartialEq, Eq, Structural)]
pub enum SendOrderStatus {
    Placed,
    Cancelled,
    InvalidOrderType,
    InvalidSide,
    InvalidSize,
    InvalidPrice,
    InsufficientAvailableFunds,
    SelfFill,
    TooManySmallOrders,
    MaxPositionViolation,
    MarketSuspended,
    MarketInactive,
    ClientOrderIdAlreadyExist,
    ClientOrderIdTooLong,
    OutsidePriceCollar,
    PostWouldExecute,
    IocWouldNotExecute,
    WouldCauseLiquidation,
    WouldNotReducePosition,
}

/// Which price a stop order triggers on.
#[derive(Clone, Copy, Debug, PartialEq, Eq, Structural)]
pub enum TriggerSignal {
    Mark,
    Index,
    Last,
}

/// One of two types.
#[derive(Clone, Copy, Debug, PartialEq, Eq, PartialOrd, Ord, Hash)]
pub enum Either<L, R> {
    /// A value of type `L`.
    Left(L),
    /// A value of type `R`.
    Right(R),
}

/// Reads a side from its wire name, buy or sell.
pub open spec fn spec_side_of(b: Seq<u8>) -> Option<Side> {
    if b == k_buy() {
        Some(Side::Buy)
    } else if b == k_sell() {
        Some(Side::Sell)
    } else {
        None
    }
}

/// Parses a side's wire name.
pub fn side_of_bytes(b: &[u8]) -> (r: Option<Side>)
    ensures
        r == spec_side_of(b@),
{
    if bytes_eq(b, k_buy_v().as_slice()) {
        Some(Side::Buy)
    } else if bytes_eq(b, k_sell_v().as_slice()) {
        Some(Side::Sell)
    } else {
        None
    }
}

impl Side {
    /// The wire name of this side.
    pub open spec fn spec_wire_name(self) -> Seq<u8> {
        match self {
            Side::Buy => k_buy(),
            Side::Sell => k_sell(),
        }
    }

    /// The wire name of this side.
    pub fn wire_name(&self) -> (r: Vec<u8>)
        ensures
            r@ == self.spec_wire_name(),
    {
        match self {
            Side::Buy => k_buy_v(),
            Side::Sell => k_sell_v(),
        }
    }
}

impl OrderType {
    /// The wire name of this order type.
    pub open spec fn spec_wire_name(self) -> Seq<u8> {
        match self {
            OrderType::Lmt => crate::wire::k_lmt(),
            OrderType::Post => crate::wire::k_post(),
            OrderType::Stp => crate::wire::k_stp(),
            OrderType::TakeProfit => crate::wire::k_take_profit(),
            OrderType::IOC => crate::wire::k_ioc(),
        }
    }

    /// The wire name of this order type.
    pub fn wire_name(&self) -> (r: Vec<u8>)
        ensures
            r@ == self.spec_wire_name(),
    {
        match self {
            OrderType::Lmt => crate::wire::k_lmt_v(),
            OrderType::Post => crate::wire::k_post_v(),
            OrderType::Stp => crate::wire::k_stp_v(),
            OrderType::TakeProfit => crate::wire::k_take_profit_v(),
            OrderType::IOC => crate::wire::k_ioc_v(),
        }
    }
}

impl TriggerSignal {
    /// The wire name of this trigger signal.
    pub open spec fn spec_wire_name(self) -> Seq<u8> {
        match self {
            TriggerSignal::Mark => crate::wire::k_mark(),
            TriggerSignal::Index => crate::wire::k_index(),
            TriggerSignal::Last => crate::wire::k_last(),
        }
    }

    /// The wire name of this trigger signal.
    pub fn wire_name(&self) -> (r: Vec<u8>)
        ensures
            r@ == self.spec_wire_name(),
    {
        match self {
            TriggerSignal::Mark => crate::wire::k_mark_v(),
            TriggerSignal::Index => crate::wire::k_index_v(),
            TriggerSignal::Last => crate::wire::k_last_v(),
        }
    }
}

/// Reads a fill type from its wire name.
pub open spec fn spec_fill_type_of(b: Seq<u8>) -> Option<FillType> {
    if b == crate::wire::k_maker() {
        Some(FillType::Maker)
    } else if b == crate::wire::k_taker() {
        Some(FillType::Taker)
    } else if b == crate::wire::k_liquidation() {
        Some(FillType::Liquidation)
    } else if b == crate::wire::k_assignee() {
        Some(FillType::Assignee)
    } else if b == crate::wire::k_assignor() {
        Some(FillType::Assignor)
    } else if b == crate::wire::k_taker_after_edit() {
        Some(FillType::TakerAfterEdit)
    } else {
        None
    }
}

/// Parses a fill type's wire name.
pub fn fill_type_of_bytes(b: &[u8]) -> (r: Option<FillType>)
    ensures
        r == spec_fill_type_of(b@),
{
    if bytes_eq(b, crate::wire::k_maker_v().as_slice()) {
        Some(FillType::Maker)
    } else if bytes_eq(b, crate::wire::k_taker_v().as_slice()) {
        Some(FillType::Taker)
    } else if bytes_eq(b, crate::wire::k_liquidation_v().as_slice()) {
        Some(FillType::Liquidation)
    } else if bytes_eq(b, crate::wire::k_assignee_v().as_slice()) {
        Some(FillType::Assignee)
    } else if bytes_eq(b, crate::wire::k_assignor_v().as_slice()) {
        Some(FillType::Assignor)
    } else if bytes_eq(b, crate::wire::k_taker_after_edit_v().as_slice()) {
        Some(FillType::TakerAfterEdit)
    } else {
        None
    }
}

} // verus!
