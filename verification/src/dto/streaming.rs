//! The messages of the stream.

use crate::text::{copied_text, signed_decimal_text, signed_digits};
use rust_decimal::Decimal;
use vstd::prelude::*;
use vstd::string::StringExecFns;

verus! {

/// The answer to a login, as the stream sees it.
#[derive(Debug)]
pub struct LoginResponse {
    pub session_token: Option<String>,
    pub login_status: String,
}

impl LoginResponse {
    /// Shows the status and keeps the token out of sight.
    pub fn to_text(&self) -> (text: String)
        ensures
            text@ == "LoginResponse { status: "@ + self.login_status@ + " }"@,
    {
        let mut text = "LoginResponse { status: ".to_string();
        text.append(self.login_status.as_str());
        text.append(" }");
        text
    }
}

/// What changed about the prices of one runner. A level holds its place, a price and a size.
#[derive(Debug)]
pub struct RunnerChange {
    pub id: u64,
    pub available_to_back: Option<Vec<[Decimal; 3]>>,
    pub available_to_lay: Option<Vec<[Decimal; 3]>>,
}

/// A sign of life from the stream.
#[derive(Debug)]
pub struct HeartbeatMessage {
    pub op: String,
    pub id: i64,
}

impl HeartbeatMessage {
    /// Shows the operation and the identifier.
    pub fn to_text(&self) -> (text: String)
        ensures
            text@ == "HeartbeatMessage { op: "@ + self.op@ + ", id: "@ + signed_digits(
                self.id as int,
            ) + " }"@,
    {
        let mut text = "HeartbeatMessage { op: ".to_string();
        text.append(self.op.as_str());
        text.append(", id: ");
        text.append(signed_decimal_text(self.id).as_str());
        text.append(" }");
        text
    }
}

/// Asks the stream for a sign of life.
#[derive(Debug)]
pub struct HeartbeatRequest {
    pub op: String,
    pub id: i64,
}

impl HeartbeatRequest {
    /// Makes the request with the given identifier.
    pub fn new(id: i64) -> (request: Self)
        ensures
            request.op@ == "heartbeat"@,
            request.id == id,
    {
        HeartbeatRequest { op: "heartbeat".to_string(), id }
    }
}

/// What changed about the orders of an account.
#[derive(Debug, Clone)]
pub struct OrderChangeMessage {
    pub clock: String,
    pub pt: i64,
    pub order_changes: Vec<OrderChange>,
}

/// What changed about the orders on one market.
#[derive(Debug, Clone)]
pub struct OrderChange {
    pub id: String,
    pub order_runner_change: Option<Vec<OrderRunnerChange>>,
    pub full_image: bool,
    pub closed: bool,
}

/// What changed about the orders on one runner.
#[derive(Debug, Clone)]
pub struct OrderRunnerChange {
    pub id: u64,
    pub handicap: Option<Decimal>,
    pub full_image: bool,
    pub unmatched_orders: Option<Vec<UnmatchedOrder>>,
    pub matched_backs: Option<Vec<Vec<Decimal>>>,
    pub matched_lays: Option<Vec<Vec<Decimal>>>,
    pub strategy_matches: Option<std::collections::HashMap<String, StrategyMatchChange>>,
}

/// An order that is not wholly matched.
#[derive(Debug)]
pub struct UnmatchedOrder {
    pub id: String,
    pub p: Decimal,
    pub s: Decimal,
    pub bsp: Option<Decimal>,
    pub side: String,
    pub status: String,
    pub pt: String,
    pub ot: String,
    pub pd: i64,
    pub md: Option<i64>,
    pub cd: Option<i64>,
    pub ld: Option<i64>,
    pub lsrc: Option<String>,
    pub avp: Option<Decimal>,
    pub sm: Option<Decimal>,
    pub sr: Option<Decimal>,
    pub sl: Option<Decimal>,
    pub sc: Option<Decimal>,
    pub sv: Option<Decimal>,
    pub rac: Option<String>,
    pub rc: Option<String>,
    pub rfo: Option<String>,
    pub rfs: Option<String>,
}

impl Clone for UnmatchedOrder {
    fn clone(&self) -> (copy: Self)
        ensures
            copy == *self,
    {
        UnmatchedOrder {
            id: self.id.clone(),
            p: self.p,
            s: self.s,
            bsp: self.bsp,
            side: self.side.clone(),
            status: self.status.clone(),
            pt: self.pt.clone(),
            ot: self.ot.clone(),
            pd: self.pd,
            md: self.md,
            cd: self.cd,
            ld: self.ld,
            lsrc: copied_text(&self.lsrc),
            avp: self.avp,
            sm: self.sm,
            sr: self.sr,
            sl: self.sl,
            sc: self.sc,
            sv: self.sv,
            rac: copied_text(&self.rac),
            rc: copied_text(&self.rc),
            rfo: copied_text(&self.rfo),
            rfs: copied_text(&self.rfs),
        }
    }
}

/// What a strategy has matched.
#[derive(Debug, Clone)]
pub struct StrategyMatchChange {
    pub matched_backs: Option<Vec<Vec<Decimal>>>,
    pub matched_lays: Option<Vec<Vec<Decimal>>>,
}

/// Which markets a subscription is about. A missing field restricts nothing.
#[derive(Debug, Clone)]
pub struct MarketFilter {
    pub market_ids: Option<Vec<String>>,
    pub bsp_market: Option<bool>,
    pub betting_types: Option<Vec<String>>,
    pub event_type_ids: Option<Vec<String>>,
    pub event_ids: Option<Vec<String>>,
    pub competition_ids: Option<Vec<String>>,
    pub turn_in_play_enabled: Option<bool>,
    pub market_types: Option<Vec<String>>,
    pub venues: Option<Vec<String>>,
    pub country_codes: Option<Vec<String>>,
    pub race_types: Option<Vec<String>>,
}

impl MarketFilter {
    /// The filter that lets every market pass.
    pub open spec fn unrestricted() -> MarketFilter {
        MarketFilter {
            market_ids: None,
            bsp_market: None,
            betting_types: None,
            event_type_ids: None,
            event_ids: None,
            competition_ids: None,
            turn_in_play_enabled: None,
            market_types: None,
            venues: None,
            country_codes: None,
            race_types: None,
        }
    }

    /// Lets the given markets pass.
    pub fn with_market_ids(market_ids: Vec<String>) -> (filter: Self)
        ensures
            filter == (MarketFilter {
                market_ids: Some(market_ids),
                ..MarketFilter::unrestricted()
            }),
    {
        MarketFilter { market_ids: Some(market_ids), ..MarketFilter::default() }
    }

    /// Lets the markets of the given sports pass.
    pub fn with_event_type_ids(event_type_ids: Vec<String>) -> (filter: Self)
        ensures
            filter == (MarketFilter {
                event_type_ids: Some(event_type_ids),
                ..MarketFilter::unrestricted()
            }),
    {
        MarketFilter { event_type_ids: Some(event_type_ids), ..MarketFilter::default() }
    }

    /// Lets the markets of the given competitions pass.
    pub fn with_competition_ids(competition_ids: Vec<String>) -> (filter: Self)
        ensures
            filter == (MarketFilter {
                competition_ids: Some(competition_ids),
                ..MarketFilter::unrestricted()
            }),
    {
        MarketFilter { competition_ids: Some(competition_ids), ..MarketFilter::default() }
    }
}

impl Default for MarketFilter {
    fn default() -> (filter: Self)
        ensures
            filter == MarketFilter::unrestricted(),
            filter.market_ids is None,
            filter.bsp_market is None,
            filter.betting_types is None,
            filter.event_type_ids is None,
            filter.event_ids is None,
            filter.competition_ids is None,
            filter.turn_in_play_enabled is None,
            filter.market_types is None,
            filter.venues is None,
            filter.country_codes is None,
            filter.race_types is None,
    {
        MarketFilter {
            market_ids: None,
            bsp_market: None,
            betting_types: None,
            event_type_ids: None,
            event_ids: None,
            competition_ids: None,
            turn_in_play_enabled: None,
            market_types: None,
            venues: None,
            country_codes: None,
            race_types: None,
        }
    }
}

/// Which orders a subscription is about.
#[derive(Debug, Clone)]
pub struct OrderFilter {
    pub include_overall_position: Option<bool>,
    pub customer_strategy_refs: Option<Vec<String>>,
    pub partition_matched_by_strategy_ref: Option<bool>,
}

impl Default for OrderFilter {
    fn default() -> (filter: Self)
        ensures
            filter == (OrderFilter {
                include_overall_position: Some(true),
                customer_strategy_refs: None,
                partition_matched_by_strategy_ref: Some(false),
            }),
    {
        OrderFilter {
            include_overall_position: Some(true),
            customer_strategy_refs: None,
            partition_matched_by_strategy_ref: Some(false),
        }
    }
}

/// Subscribes to the orders of an account.
#[derive(Debug, Clone)]
pub struct OrderSubscriptionMessage {
    pub op: String,
    pub order_filter: Option<OrderFilter>,
    pub segmentation_enabled: bool,
    pub heartbeat_ms: Option<i64>,
}

} // verus!
