//! Enumerations and small values that several requests share.

use vstd::prelude::*;

verus! {

/// Which side of a bet an order takes.
#[derive(Debug, Clone, Copy, PartialEq, Eq, Structural)]
pub enum Side {
    Back,
    Lay,
}

/// The kind of an order.
#[derive(Debug, Clone, Copy, PartialEq, Eq, Structural)]
pub enum OrderType {
    Limit,
    LimitOnClose,
    MarketOnClose,
}

/// What becomes of an unmatched order when the market turns in-play.
#[derive(Debug, Clone, Copy, PartialEq, Eq, Structural)]
pub enum PersistenceType {
    Lapse,
    Persist,
    MarketOnClose,
}

/// What a market catalogue entry describes.
#[derive(Debug, Clone, Copy, PartialEq, Eq, Structural)]
pub enum MarketProjection {
    Competition,
    Event,
    EventType,
    MarketStartTime,
    MarketDescription,
    RunnerDescription,
    RunnerMetadata,
}

/// The order of a market catalogue.
#[derive(Debug, Clone, Copy, PartialEq, Eq, Structural)]
pub enum MarketSort {
    MinimumTraded,
    MaximumTraded,
    MinimumAvailable,
    MaximumAvailable,
    FirstToStart,
    LastToStart,
}

/// Which prices a market book lists.
#[derive(Debug, Clone, Copy, PartialEq, Eq, Structural)]
pub enum PriceData {
    SpAvailable,
    SpTraded,
    ExBestOffers,
    ExAllOffers,
    ExTraded,
}

/// A wallet of an account.
#[derive(Debug, Clone, Copy, PartialEq, Eq, Structural)]
pub enum Wallet {
    Uk,
    Australian,
}

/// A span of time. A missing end leaves it open on that side.
#[derive(Debug, Clone)]
pub struct TimeRange {
    pub from: Option<String>,
    pub to: Option<String>,
}

} // verus!
