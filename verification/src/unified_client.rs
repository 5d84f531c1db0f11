//! One client for both sides: REST calls and streaming under one session.

use crate::api_client::{
    addressed, login_status, login_verdict, odds_request, runners_request, RestClient,
};
use crate::config::Config;
use crate::dto::rpc::{InteractiveLoginResponse, LoginResponse};
use crate::dto::{
    CancelOrdersRequest, GetAccountDetailsRequest, GetAccountFundsRequest, ListCompetitionsRequest,
    ListCurrencyRatesRequest, ListCurrentOrdersRequest, ListEventTypesRequest, ListEventsRequest,
    ListMarketBookRequest, ListMarketCatalogueRequest, MarketFilter, PlaceOrdersRequest,
};
use crate::error::ClientError;
use crate::orderbook::Orderbook;
use crate::stream_task::{StreamTask, TaskState};
use crate::streaming_client::{
    fresh_state, started, with_token, StreamState, StreamingClient, StreamingCommand,
};
use crate::table::Table;
use crate::text::{same_text, text_of, uppercase};
use crate::transport::{ApiRequest, RateClass, ACCOUNT_URL, BETTING_URL};
use std::time::Instant;
use vstd::prelude::*;

verus! {

/// A client for REST calls and for streaming.
pub struct BetfairClient {
    pub api_client: RestClient,
    pub streaming_client: Option<StreamingClient>,
    pub config: Config,
}

impl BetfairClient {
    /// Whether both sides act for one application and in one session.
    pub open spec fn in_step(self) -> bool {
        &&& self.api_client.config == self.config
        &&& self.streaming_client matches Some(streaming) ==> streaming@.api_key
            == self.config.betfair.api_key@ && streaming@.session_token == text_of(
            self.api_client.session_token,
        )
    }

    /// The streaming state, where there is any.
    pub open spec fn streaming_state(self) -> Option<StreamState> {
        match self.streaming_client {
            Some(streaming) => Some(streaming@),
            None => None,
        }
    }

    /// Makes a client that is not logged in and does not stream.
    pub fn new(config: Config) -> (client: Self)
        ensures
            client.config == config,
            client.api_client.config == config,
            client.api_client.session_token is None,
            client.streaming_client is None,
            client.in_step(),
    {
        let api_client = RestClient::new(config.clone());
        BetfairClient { api_client, streaming_client: None, config }
    }

    /// Takes the answer to a login with a client certificate. Where its status is exactly
    /// `SUCCESS`, the session is kept and streaming starts afresh under it. Tells whether that
    /// was so.
    pub fn login(&mut self, response: &LoginResponse) -> (accepted: bool)
        ensures
            accepted == (response.login_status@ == "SUCCESS"@),
            old(self).in_step() ==> final(self).in_step(),
            final(self).config == old(self).config,
            final(self).api_client.config == old(self).api_client.config,
            if response.login_status@ == "SUCCESS"@ {
                &&& text_of(final(self).api_client.session_token) == Some(response.session_token@)
                &&& final(self).streaming_state() == Some(
                    fresh_state(
                        old(self).config.betfair.api_key@,
                        Some(response.session_token@),
                    ),
                )
            } else {
                *final(self) == *old(self)
            },
    {
        self.api_client.login(response);
        if same_text(response.login_status.as_str(), "SUCCESS") {
            self.streaming_client = Some(
                StreamingClient::with_session_token(
                    self.config.betfair.api_key.clone(),
                    response.session_token.clone(),
                ),
            );
            true
        } else {
            false
        }
    }

    /// Takes the answer to a login by name and password. Where it is accepted, the session is
    /// kept and streaming starts afresh under it.
    pub fn login_interactive(
        &mut self,
        response: &InteractiveLoginResponse,
    ) -> (outcome: Result<(), ClientError>)
        ensures
            old(self).in_step() ==> final(self).in_step(),
            final(self).config == old(self).config,
            final(self).api_client.config == old(self).api_client.config,
            match outcome {
                Ok(_) => (final(self).api_client.session_token matches Some(token)
                    && login_verdict(*response, uppercase(login_status(*response)), Ok(token))
                    && final(self).streaming_state() == Some(
                    fresh_state(old(self).config.betfair.api_key@, Some(token@)),
                )),
                Err(error) => *final(self) == *old(self) && login_verdict(
                    *response,
                    uppercase(login_status(*response)),
                    Err(error),
                ),
            },
    {
        match self.api_client.login_interactive(response) {
            Ok(_) => {
                if let Some(token) = self.api_client.get_session_token() {
                    self.streaming_client = Some(
                        StreamingClient::with_session_token(
                            self.config.betfair.api_key.clone(),
                            token,
                        ),
                    );
                }
                Ok(())
            },
            Err(error) => Err(error),
        }
    }

    /// The current session token.
    pub fn get_session_token(&self) -> (token: Option<String>)
        ensures
            token == self.api_client.session_token,
    {
        self.api_client.get_session_token()
    }

    /// Sets the session token on both sides, for a session that was opened before. Streaming that
    /// is there goes on as it is.
    pub fn set_session_token(&mut self, token: String)
        ensures
            old(self).in_step() ==> final(self).in_step(),
            final(self).config == old(self).config,
            final(self).api_client == old(self).api_client.with_token(token),
            final(self).streaming_state() == Some(
                match old(self).streaming_state() {
                    Some(state) => with_token(state, token@),
                    None => fresh_state(old(self).config.betfair.api_key@, Some(token@)),
                },
            ),
    {
        let for_streaming = token.clone();
        self.api_client.set_session_token(token);
        let streaming = match self.streaming_client.take() {
            Some(mut streaming) => {
                streaming.set_session_token(for_streaming);
                streaming
            },
            None => StreamingClient::with_session_token(
                self.config.betfair.api_key.clone(),
                for_streaming,
            ),
        };
        self.streaming_client = Some(streaming);
    }

    /// Lists the sports that a filter lets pass, all of them where there is none.
    pub fn list_sports(
        &self,
        filter: Option<MarketFilter>,
    ) -> (api: ApiRequest<ListEventTypesRequest>)
        ensures
            api.limits@ == seq![RateClass::Navigation],
            addressed(self.api_client, BETTING_URL@, "SportsAPING/v1.0/listEventTypes"@, api.call),
            api.call matches Ok(call) ==> text_of(call.body.params.locale) == Some("en"@)
                && call.body.params.filter == (match filter {
                Some(filter) => filter,
                None => MarketFilter::unrestricted(),
            }),
    {
        self.api_client.list_sports(filter)
    }

    /// Lists the competitions that a filter lets pass, all of them where there is none.
    pub fn list_competitions(
        &self,
        filter: Option<MarketFilter>,
    ) -> (api: ApiRequest<ListCompetitionsRequest>)
        ensures
            api.limits@ == seq![RateClass::Navigation],
            addressed(
                self.api_client,
                BETTING_URL@,
                "SportsAPING/v1.0/listCompetitions"@,
                api.call,
            ),
            api.call matches Ok(call) ==> text_of(call.body.params.locale) == Some("en"@)
                && call.body.params.filter == (match filter {
                Some(filter) => filter,
                None => MarketFilter::unrestricted(),
            }),
    {
        self.api_client.list_competitions(filter)
    }

    /// Lists the events that a filter lets pass, all of them where there is none.
    pub fn list_events(&self, filter: Option<MarketFilter>) -> (api: ApiRequest<ListEventsRequest>)
        ensures
            api.limits@ == seq![RateClass::Navigation],
            addressed(self.api_client, BETTING_URL@, "SportsAPING/v1.0/listEvents"@, api.call),
            api.call matches Ok(call) ==> text_of(call.body.params.locale) == Some("en"@)
                && call.body.params.filter == (match filter {
                Some(filter) => filter,
                None => MarketFilter::unrestricted(),
            }),
    {
        self.api_client.list_events(filter)
    }

    /// Lists the catalogue entries of markets.
    pub fn list_market_catalogue(
        &self,
        request: ListMarketCatalogueRequest,
    ) -> (api: ApiRequest<ListMarketCatalogueRequest>)
        ensures
            api.limits@ == seq![RateClass::Navigation],
            addressed(
                self.api_client,
                BETTING_URL@,
                "SportsAPING/v1.0/listMarketCatalogue"@,
                api.call,
            ),
            api.call matches Ok(call) ==> call.body.params == request,
    {
        self.api_client.list_market_catalogue(request)
    }

    /// Lists the books of markets.
    pub fn list_market_book(
        &self,
        request: ListMarketBookRequest,
    ) -> (api: ApiRequest<ListMarketBookRequest>)
        ensures
            api.limits@ == seq![RateClass::Navigation],
            addressed(self.api_client, BETTING_URL@, "SportsAPING/v1.0/listMarketBook"@, api.call),
            api.call matches Ok(call) ==> call.body.params == request,
    {
        self.api_client.list_market_book(request)
    }

    /// Asks for the full price ladder of a market.
    pub fn get_odds(&self, market_id: String) -> (api: ApiRequest<ListMarketBookRequest>)
        ensures
            api.limits@ == seq![RateClass::Navigation],
            addressed(self.api_client, BETTING_URL@, "SportsAPING/v1.0/listMarketBook"@, api.call),
            api.call matches Ok(call) ==> odds_request(call.body.params, market_id),
    {
        self.api_client.get_odds(market_id)
    }

    /// Lists the runners of a market, with their names and metadata.
    pub fn list_runners(&self, market_id: &str) -> (api: ApiRequest<ListMarketCatalogueRequest>)
        ensures
            api.limits@ == seq![RateClass::Navigation, RateClass::Navigation],
            addressed(
                self.api_client,
                BETTING_URL@,
                "SportsAPING/v1.0/listMarketCatalogue"@,
                api.call,
            ),
            api.call matches Ok(call) ==> runners_request(call.body.params, market_id@),
    {
        self.api_client.list_runners(market_id)
    }

    /// Places orders.
    pub fn place_orders(&self, request: PlaceOrdersRequest) -> (api: ApiRequest<PlaceOrdersRequest>)
        ensures
            api.limits@ == seq![RateClass::Transaction],
            addressed(self.api_client, BETTING_URL@, "SportsAPING/v1.0/placeOrders"@, api.call),
            api.call matches Ok(call) ==> call.body.params == request,
    {
        self.api_client.place_orders(request)
    }

    /// Cancels orders.
    pub fn cancel_orders(
        &self,
        request: CancelOrdersRequest,
    ) -> (api: ApiRequest<CancelOrdersRequest>)
        ensures
            api.limits@ == seq![RateClass::Transaction],
            addressed(self.api_client, BETTING_URL@, "SportsAPING/v1.0/cancelOrders"@, api.call),
            api.call matches Ok(call) ==> call.body.params == request,
    {
        self.api_client.cancel_orders(request)
    }

    /// Lists the orders that are current.
    pub fn list_current_orders(
        &self,
        request: ListCurrentOrdersRequest,
    ) -> (api: ApiRequest<ListCurrentOrdersRequest>)
        ensures
            api.limits@ == seq![RateClass::Data],
            addressed(
                self.api_client,
                BETTING_URL@,
                "SportsAPING/v1.0/listCurrentOrders"@,
                api.call,
            ),
            api.call matches Ok(call) ==> call.body.params == request,
    {
        self.api_client.list_current_orders(request)
    }

    /// Lists the orders that are settled. What is asked for is up to the caller.
    pub fn list_cleared_orders<T>(&self, request: T) -> (api: ApiRequest<T>)
        ensures
            api.limits@ == seq![RateClass::Data],
            addressed(
                self.api_client,
                BETTING_URL@,
                "SportsAPING/v1.0/listClearedOrders"@,
                api.call,
            ),
            api.call matches Ok(call) ==> call.body.params == request,
    {
        self.api_client.list_cleared_orders(request)
    }

    /// Asks for the funds of the account.
    pub fn get_account_funds(
        &self,
        request: GetAccountFundsRequest,
    ) -> (api: ApiRequest<GetAccountFundsRequest>)
        ensures
            api.limits@ == seq![RateClass::Data],
            addressed(
                self.api_client,
                ACCOUNT_URL@,
                "AccountAPING/v1.0/getAccountFunds"@,
                api.call,
            ),
            api.call matches Ok(call) ==> call.body.params == request,
    {
        self.api_client.get_account_funds(request)
    }

    /// Asks for the details of the account.
    pub fn get_account_details(&self) -> (api: ApiRequest<GetAccountDetailsRequest>)
        ensures
            api.limits@ == seq![RateClass::Data],
            addressed(
                self.api_client,
                ACCOUNT_URL@,
                "AccountAPING/v1.0/getAccountDetails"@,
                api.call,
            ),
    {
        self.api_client.get_account_details()
    }

    /// Lists exchange rates from one currency.
    pub fn list_currency_rates(
        &self,
        request: ListCurrencyRatesRequest,
    ) -> (api: ApiRequest<ListCurrencyRatesRequest>)
        ensures
            api.limits@ == seq![RateClass::Data],
            addressed(
                self.api_client,
                ACCOUNT_URL@,
                "AccountAPING/v1.0/listCurrencyRates"@,
                api.call,
            ),
            api.call matches Ok(call) ==> call.body.params == request,
    {
        self.api_client.list_currency_rates(request)
    }

    /// Starts streaming. Without a session token, or before a login, it is refused.
    pub fn start_streaming(&mut self) -> (task: Result<StreamTask, ClientError>)
        ensures
            old(self).in_step() ==> final(self).in_step(),
            final(self).config == old(self).config,
            final(self).api_client == old(self).api_client,
            match old(self).streaming_state() {
                None => (task matches Err(error) && error is StreamingNotInitialized)
                    && final(self).streaming_state() is None,
                Some(state) => match state.session_token {
                    Some(token) => (task matches Ok(task) && task@ == (TaskState {
                        api_key: state.api_key,
                        session_token: token,
                        first_start: true,
                        attempt: 0,
                        reconnects: state.enable_reconnection,
                    })) && final(self).streaming_state() == Some(started(state)),
                    None => (task matches Err(error) && error is SessionTokenNotSet)
                        && final(self).streaming_state() == Some(state),
                },
            },
    {
        match self.streaming_client.take() {
            None => Err(ClientError::StreamingNotInitialized),
            Some(mut streaming) => {
                let task = streaming.start();
                self.streaming_client = Some(streaming);
                task
            },
        }
    }

    /// The command that subscribes to a market.
    pub fn subscribe_to_market(
        &self,
        market_id: String,
        levels: usize,
    ) -> (command: Result<StreamingCommand, ClientError>)
        ensures
            match self.streaming_state() {
                None => command matches Err(error) && error is StreamingNotInitialized,
                Some(state) => if state.has_command_sender {
                    command == Ok::<StreamingCommand, ClientError>(
                        StreamingCommand::Subscribe(market_id, levels),
                    )
                } else {
                    command matches Err(error) && error is StreamingNotStarted
                },
            },
    {
        match &self.streaming_client {
            None => Err(ClientError::StreamingNotInitialized),
            Some(streaming) => streaming.subscribe_to_market(market_id, levels),
        }
    }

    /// The command that subscribes to several markets at once.
    pub fn subscribe_to_markets(
        &self,
        market_ids: Vec<String>,
        levels: usize,
    ) -> (command: Result<StreamingCommand, ClientError>)
        ensures
            match self.streaming_state() {
                None => command matches Err(error) && error is StreamingNotInitialized,
                Some(state) => if market_ids@.len() == 0 {
                    command matches Err(error) && error is EmptyMarketList
                } else if state.has_command_sender {
                    command == Ok::<StreamingCommand, ClientError>(
                        StreamingCommand::SubscribeBatch(market_ids, levels),
                    )
                } else {
                    command matches Err(error) && error is StreamingNotStarted
                },
            },
    {
        match &self.streaming_client {
            None => Err(ClientError::StreamingNotInitialized),
            Some(streaming) => streaming.subscribe_to_markets(market_ids, levels),
        }
    }

    /// The command that forgets a market.
    pub fn unsubscribe_from_market(
        &self,
        market_id: String,
    ) -> (command: Result<StreamingCommand, ClientError>)
        ensures
            match self.streaming_state() {
                None => command matches Err(error) && error is StreamingNotInitialized,
                Some(state) => if state.has_command_sender {
                    command == Ok::<StreamingCommand, ClientError>(
                        StreamingCommand::Unsubscribe(market_id),
                    )
                } else {
                    command matches Err(error) && error is StreamingNotStarted
                },
            },
    {
        match &self.streaming_client {
            None => Err(ClientError::StreamingNotInitialized),
            Some(streaming) => streaming.unsubscribe_from_market(market_id),
        }
    }

    /// The books of all markets that are streamed, where there is streaming.
    pub fn get_streaming_orderbooks(&self) -> (orderbooks: Option<&Table<Table<Orderbook>>>)
        ensures
            match orderbooks {
                Some(orderbooks) => self.streaming_client matches Some(streaming) && *orderbooks
                    == streaming.orderbooks,
                None => self.streaming_client is None,
            },
    {
        match &self.streaming_client {
            Some(streaming) => Some(streaming.get_orderbooks()),
            None => None,
        }
    }

    /// When the prices of a market last came in.
    pub fn get_market_last_update_time(&self, market_id: &str) -> (time: Option<Instant>)
        ensures
            match self.streaming_state() {
                Some(state) if state.last_update_times.contains_key(market_id@) => time == Some(
                    state.last_update_times[market_id@],
                ),
                _ => time is None,
            },
    {
        match &self.streaming_client {
            Some(streaming) => streaming.get_last_update_time(market_id),
            None => None,
        }
    }

    /// Whether the stream is up.
    pub fn is_streaming_connected(&self) -> (connected: bool)
        ensures
            connected == (self.streaming_state() matches Some(state) && state.is_connected),
    {
        match &self.streaming_client {
            Some(streaming) => streaming.is_connected(),
            None => false,
        }
    }

    /// The command that stops streaming, where it was started.
    pub fn stop_streaming(&self) -> (command: Option<StreamingCommand>)
        ensures
            command == (match self.streaming_state() {
                Some(state) if state.has_command_sender => Some(StreamingCommand::Stop),
                _ => None,
            }),
    {
        match &self.streaming_client {
            Some(streaming) => streaming.stop(),
            None => None,
        }
    }

    /// Notes that a callback for prices is set. Before a login there is no streaming to set it on.
    pub fn set_orderbook_callback(&mut self) -> (outcome: Result<(), ClientError>)
        ensures
            old(self).in_step() ==> final(self).in_step(),
            final(self).config == old(self).config,
            final(self).api_client == old(self).api_client,
            match old(self).streaming_state() {
                Some(state) => outcome is Ok && final(self).streaming_state() == Some(
                    StreamState { has_orderbook_callback: true, ..state },
                ),
                None => (outcome matches Err(error) && error is StreamingNotInitialized)
                    && final(self).streaming_state() is None,
            },
    {
        match self.streaming_client.take() {
            None => Err(ClientError::StreamingNotInitialized),
            Some(mut streaming) => {
                streaming.set_orderbook_callback();
                self.streaming_client = Some(streaming);
                Ok(())
            },
        }
    }

    /// What follows when orders were placed with the given status and their market is to be
    /// watched: a subscription to the market where the status is exactly `SUCCESS`, and nothing
    /// otherwise. A subscription that is refused leaves the placement as it is.
    pub fn place_order_with_updates(
        &self,
        status: &str,
        market_id: String,
        levels: usize,
    ) -> (command: Option<Result<StreamingCommand, ClientError>>)
        ensures
            if status@ == "SUCCESS"@ {
                command matches Some(command) && match self.streaming_state() {
                    None => command matches Err(error) && error is StreamingNotInitialized,
                    Some(state) => if state.has_command_sender {
                        command == Ok::<StreamingCommand, ClientError>(
                            StreamingCommand::Subscribe(market_id, levels),
                        )
                    } else {
                        command matches Err(error) && error is StreamingNotStarted
                    },
                }
            } else {
                command is None
            },
    {
        if same_text(status, "SUCCESS") {
            Some(self.subscribe_to_market(market_id, levels))
        } else {
            None
        }
    }
}

} // verus!
