//! Requests for markets, events and prices.

use super::common::{MarketProjection, MarketSort, PriceData, TimeRange};
use rust_decimal::Decimal;
use vstd::prelude::*;

verus! {

/// Which markets a request is about. A missing field restricts nothing.
#[derive(Debug, Clone)]
pub struct MarketFilter {
    pub text_query: Option<String>,
    pub exchange_ids: Option<Vec<String>>,
    pub event_type_ids: Option<Vec<String>>,
    pub event_ids: Option<Vec<String>>,
    pub competition_ids: Option<Vec<String>>,
    pub market_ids: Option<Vec<String>>,
    pub venues: Option<Vec<String>>,
    pub bsp_only: Option<bool>,
    pub turn_in_play_enabled: Option<bool>,
    pub in_play_only: Option<bool>,
    pub market_betting_types: Option<Vec<String>>,
    pub market_countries: Option<Vec<String>>,
    pub market_type_codes: Option<Vec<String>>,
    pub market_start_time: Option<TimeRange>,
    pub with_orders: Option<Vec<String>>,
}

impl MarketFilter {
    /// The filter that lets every market pass.
    pub open spec fn unrestricted() -> MarketFilter {
        MarketFilter {
            text_query: None,
            exchange_ids: None,
            event_type_ids: None,
            event_ids: None,
            competition_ids: None,
            market_ids: None,
            venues: None,
            bsp_only: None,
            turn_in_play_enabled: None,
            in_play_only: None,
            market_betting_types: None,
            market_countries: None,
            market_type_codes: None,
            market_start_time: None,
            with_orders: None,
        }
    }

    /// The filter itself, or the one that lets every market pass where there is none.
    pub fn or_unrestricted(filter: Option<MarketFilter>) -> (used: MarketFilter)
        ensures
            used == (match filter {
                Some(filter) => filter,
                None => MarketFilter::unrestricted(),
            }),
    {
        match filter {
            Some(filter) => filter,
            None => MarketFilter::default(),
        }
    }
}

impl Default for MarketFilter {
    fn default() -> (filter: Self)
        ensures
            filter == MarketFilter::unrestricted(),
            filter.text_query is None,
            filter.exchange_ids is None,
            filter.event_type_ids is None,
            filter.event_ids is None,
            filter.competition_ids is None,
            filter.market_ids is None,
            filter.venues is None,
            filter.bsp_only is None,
            filter.turn_in_play_enabled is None,
            filter.in_play_only is None,
            filter.market_betting_types is None,
            filter.market_countries is None,
            filter.market_type_codes is None,
            filter.market_start_time is None,
            filter.with_orders is None,
    {
        MarketFilter {
            text_query: None,
            exchange_ids: None,
            event_type_ids: None,
            event_ids: None,
            competition_ids: None,
            market_ids: None,
            venues: None,
            bsp_only: None,
            turn_in_play_enabled: None,
            in_play_only: None,
            market_betting_types: None,
            market_countries: None,
            market_type_codes: None,
            market_start_time: None,
            with_orders: None,
        }
    }
}

/// Asks for the catalogue entries of markets.
#[derive(Debug, Clone)]
pub struct ListMarketCatalogueRequest {
    pub filter: MarketFilter,
    pub market_projection: Option<Vec<MarketProjection>>,
    pub sort: Option<MarketSort>,
    pub max_results: Option<i32>,
    pub locale: Option<String>,
}

/// How the best offers of a market book are put together.
#[derive(Debug, Clone)]
pub struct ExBestOffersOverrides {
    pub best_prices_depth: Option<i32>,
    pub rollup_model: Option<String>,
    pub rollup_limit: Option<i32>,
    pub rollup_liability_threshold: Option<Decimal>,
    pub rollup_liability_factor: Option<i32>,
}

/// Which prices a market book holds.
#[derive(Debug, Clone)]
pub struct PriceProjectionDto {
    pub price_data: Option<Vec<PriceData>>,
    pub ex_best_offers_overrides: Option<ExBestOffersOverrides>,
    pub virtualise: Option<bool>,
    pub rollover_stakes: Option<bool>,
}

/// Asks for the books of markets.
#[derive(Debug, Clone)]
pub struct ListMarketBookRequest {
    pub market_ids: Vec<String>,
    pub price_projection: Option<PriceProjectionDto>,
    pub order_projection: Option<String>,
    pub match_projection: Option<String>,
    pub include_overall_position: Option<bool>,
    pub partition_matched_by_strategy_ref: Option<bool>,
    pub customer_strategy_refs: Option<Vec<String>>,
    pub currency_code: Option<String>,
    pub locale: Option<String>,
    pub matched_since: Option<String>,
    pub bet_ids: Option<Vec<String>>,
}

/// Asks for the sports of the markets that a filter lets pass.
#[derive(Debug, Clone)]
pub struct ListEventTypesRequest {
    pub filter: MarketFilter,
    pub locale: Option<String>,
}

/// Asks for the events of the markets that a filter lets pass.
#[derive(Debug, Clone)]
pub struct ListEventsRequest {
    pub filter: MarketFilter,
    pub locale: Option<String>,
}

/// Asks for the competitions of the markets that a filter lets pass.
#[derive(Debug, Clone)]
pub struct ListCompetitionsRequest {
    pub filter: MarketFilter,
    pub locale: Option<String>,
}

} // verus!
