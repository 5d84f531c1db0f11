//! The data that travels between a client and the exchange.

pub mod account;
pub mod common;
pub mod market;
pub mod order;
pub mod rpc;
pub mod streaming;

pub use account::{
    AccountFundsResponse, CurrencyRate, GetAccountDetailsRequest, GetAccountDetailsResponse,
    GetAccountFundsRequest, GetAccountFundsResponse, ListCurrencyRatesRequest,
    TransferFundsRequest, TransferFundsResponse,
};
pub use common::{
    MarketProjection, MarketSort, OrderType, PersistenceType, PriceData, Side, TimeRange, Wallet,
};
pub use market::{
    ExBestOffersOverrides, ListCompetitionsRequest, ListEventTypesRequest, ListEventsRequest,
    ListMarketBookRequest, ListMarketCatalogueRequest, MarketFilter, PriceProjectionDto,
};
pub use order::{
    CancelInstruction, CancelOrdersRequest, LimitOnCloseOrder, LimitOrder,
    ListCurrentOrdersRequest, MarketOnCloseOrder, MarketVersion, PlaceInstruction,
    PlaceOrdersRequest,
};
pub use rpc::{ApiError, JsonRpcRequest, JsonRpcResponse};
