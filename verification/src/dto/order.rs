//! Requests that place, cancel and list orders.

use super::common::{OrderType, PersistenceType, Side, TimeRange};
use rust_decimal::Decimal;
use vstd::prelude::*;

verus! {

/// An order with a price limit.
#[derive(Debug, Clone)]
pub struct LimitOrder {
    pub size: Decimal,
    pub price: Decimal,
    pub persistence_type: PersistenceType,
    pub time_in_force: Option<String>,
    pub min_fill_size: Option<Decimal>,
    pub bet_target_type: Option<String>,
    pub bet_target_size: Option<Decimal>,
}

/// An order with a price limit that is matched at the starting price.
#[derive(Debug, Clone)]
pub struct LimitOnCloseOrder {
    pub liability: Decimal,
    pub price: Decimal,
}

/// An order that is matched at the starting price.
#[derive(Debug, Clone)]
pub struct MarketOnCloseOrder {
    pub liability: Decimal,
}

/// One order to place.
#[derive(Debug, Clone)]
pub struct PlaceInstruction {
    pub order_type: OrderType,
    pub selection_id: i64,
    pub handicap: Option<Decimal>,
    pub side: Side,
    pub limit_order: Option<LimitOrder>,
    pub limit_on_close_order: Option<LimitOnCloseOrder>,
    pub market_on_close_order: Option<MarketOnCloseOrder>,
    pub customer_order_ref: Option<String>,
}

/// The version of a market that an order is meant for.
#[derive(Debug, Clone)]
pub struct MarketVersion {
    pub version: i64,
}

/// Places orders on a market.
#[derive(Debug, Clone)]
pub struct PlaceOrdersRequest {
    pub market_id: String,
    pub instructions: Vec<PlaceInstruction>,
    pub customer_ref: Option<String>,
    pub market_version: Option<MarketVersion>,
    pub customer_strategy_ref: Option<String>,
    pub async_: Option<bool>,
}

/// One bet to cancel, wholly where no reduction is given.
#[derive(Debug, Clone)]
pub struct CancelInstruction {
    pub bet_id: String,
    pub size_reduction: Option<Decimal>,
}

/// Cancels orders on a market.
#[derive(Debug, Clone)]
pub struct CancelOrdersRequest {
    pub market_id: String,
    pub instructions: Vec<CancelInstruction>,
    pub customer_ref: Option<String>,
}

/// Asks for the orders that are current.
#[derive(Debug, Clone)]
pub struct ListCurrentOrdersRequest {
    pub bet_ids: Option<Vec<String>>,
    pub market_ids: Option<Vec<String>>,
    pub order_projection: Option<String>,
    pub customer_order_refs: Option<Vec<String>>,
    pub customer_strategy_refs: Option<Vec<String>>,
    pub date_range: Option<TimeRange>,
    pub order_by: Option<String>,
    pub sort_dir: Option<String>,
    pub from_record: Option<i32>,
    pub record_count: Option<i32>,
}

} // verus!
